//! Logical names, Discord emoji names and image addresses.

use vstd::prelude::*;
use vstd::string::StrSliceExecFns;
use vstd::utf8::is_ascii_chars;

use crate::text::{
    begins, cat2, chars, first_chars, join, joined, own, split_at_char, split_char, starts_with,
    take_chars, text_of, views, views_push,
};
use crate::unicode::{alphanumeric, ascii_lower_char, ascii_lower_text, ascii_upper, lowercase};

verus! {

/// The address of the wiki that relative links are resolved against.
pub const REALMEYE_BASE: &'static str = "https://www.realmeye.com";

/// Straight and curly apostrophes are dropped from display names.
pub open spec fn is_apostrophe(c: char) -> bool {
    c == '\'' || c == '\u{2019}'
}

/// A text without its apostrophes.
pub open spec fn without_apostrophes(s: Seq<char>) -> Seq<char> {
    s.filter(|c: char| !is_apostrophe(c))
}

/// A text with an underscore for each character that is not alphanumeric.
pub open spec fn underscored(s: Seq<char>) -> Seq<char> {
    Seq::new(
        s.len(),
        |i: int|
            if alphanumeric(s[i]) {
                s[i]
            } else {
                '_'
            },
    )
}

/// The pieces that are not empty.
pub open spec fn filled(parts: Seq<Seq<char>>) -> Seq<Seq<char>> {
    parts.filter(|p: Seq<char>| p.len() > 0)
}

/// The logical name of a display name: apostrophes dropped, lower case, and
/// each run of other characters that are not alphanumeric turned into one
/// underscore between two words.
pub open spec fn slug(name: Seq<char>) -> Seq<char> {
    joined(
        filled(split_at_char(underscored(lowercase(without_apostrophes(name))), '_')),
        "_"@,
    )
}

/// Normalise a display name to a logical slug. Apostrophes are dropped rather
/// than replaced, so "Oryx's Sanctuary" becomes "oryxs_sanctuary".
pub fn slug_from_display(name: &str) -> (r: String)
    ensures
        r@ == slug(name@),
{
    let stripped = strip_apostrophes(name);
    let lower = stripped.to_lowercase();
    let marked = underscore_rest(&lower);
    let parts = split_char(&marked, '_');
    let words = keep_filled(parts);
    join(&words, "_")
}

fn strip_apostrophes(s: &str) -> (r: String)
    ensures
        r@ == without_apostrophes(s@),
{
    let cs = chars(s);
    let mut out = String::new();
    let mut i: usize = 0;
    proof {
        reveal(Seq::filter);
    }
    while i < cs.len()
        invariant
            i <= cs@.len(),
            cs@ == s@,
            out@ == without_apostrophes(s@.take(i as int)),
        decreases cs@.len() - i,
    {
        let c = cs[i];
        proof {
            reveal(Seq::filter);
            assert(s@.take(i + 1).drop_last() =~= s@.take(i as int));
        }
        if c != '\'' && c != '\u{2019}' {
            out.push(c);
        }
        i = i + 1;
    }
    assert(s@.take(i as int) =~= s@);
    out
}

fn underscore_rest(s: &str) -> (r: String)
    ensures
        r@ == underscored(s@),
{
    let cs = chars(s);
    let mut out = String::new();
    let mut i: usize = 0;
    while i < cs.len()
        invariant
            i <= cs@.len(),
            cs@ == s@,
            out@ == underscored(s@).take(i as int),
        decreases cs@.len() - i,
    {
        let c = cs[i];
        if c.is_alphanumeric() {
            out.push(c);
        } else {
            out.push('_');
        }
        i = i + 1;
        assert(underscored(s@).take(i as int) =~= underscored(s@).take(i - 1).push(
            underscored(s@)[i - 1],
        ));
    }
    assert(underscored(s@).take(i as int) =~= underscored(s@));
    out
}

fn keep_filled(parts: Vec<String>) -> (r: Vec<String>)
    ensures
        views(r@) == filled(views(parts@)),
{
    broadcast use views_push;

    let mut out: Vec<String> = Vec::new();
    let mut i: usize = 0;
    proof {
        reveal(Seq::filter);
        assert(views(out@) =~= filled(views(parts@).take(0)));
    }
    while i < parts.len()
        invariant
            i <= parts@.len(),
            views(out@) == filled(views(parts@).take(i as int)),
        decreases parts@.len() - i,
    {
        broadcast use views_push;

        proof {
            reveal(Seq::filter);
            assert(views(parts@).take(i + 1).drop_last() =~= views(parts@).take(i as int));
        }
        if !parts[i].as_str().is_empty() {
            out.push(own(&parts[i]));
        }
        i = i + 1;
    }
    assert(views(parts@).take(i as int) =~= views(parts@));
    out
}

/// A word of a slug: not empty, and made of alphanumeric characters.
pub open spec fn is_word(w: Seq<char>) -> bool {
    w.len() > 0 && forall|i: int| 0 <= i < w.len() ==> #[trigger] w[i] != '_' && alphanumeric(w[i])
}

/// The shape of a slug: alphanumeric characters and underscores, with no
/// underscore at either end and no two of them in a row.
pub open spec fn slug_shaped(s: Seq<char>) -> bool {
    &&& forall|i: int| 0 <= i < s.len() ==> #[trigger] s[i] == '_' || alphanumeric(s[i])
    &&& s.len() > 0 ==> s[0] != '_' && s.last() != '_'
    &&& forall|i: int, j: int|
        0 <= i < s.len() && j == i + 1 && j < s.len() ==> !(#[trigger] s[i] == '_' && #[trigger] s[j]
            == '_')
}

/// Whatever the display name, its slug has the shape of a slug.
pub proof fn slug_has_its_shape(name: Seq<char>)
    ensures
        slug_shaped(slug(name)),
{
    let marked = underscored(lowercase(without_apostrophes(name)));
    let parts = split_at_char(marked, '_');
    pieces_are_clean(marked);
    let words = filled(parts);
    assert forall|k: int| 0 <= k < words.len() implies is_word(#[trigger] words[k]) by {
        broadcast use vstd::seq_lib::group_filter_ensures;

        parts.lemma_filter_pred(|p: Seq<char>| p.len() > 0, k);
        assert(words.contains(words[k]));
        parts.lemma_filter_contains_rev(|p: Seq<char>| p.len() > 0, words[k]);
        let j = choose|j: int| 0 <= j < parts.len() && parts[j] == words[k];
        assert(clean(parts[j]));
    }
    joined_words_are_shaped(words);
}

spec fn clean(p: Seq<char>) -> bool {
    forall|i: int| 0 <= i < p.len() ==> #[trigger] p[i] != '_' && alphanumeric(p[i])
}

proof fn pieces_are_clean(s: Seq<char>)
    requires
        forall|i: int| 0 <= i < s.len() ==> #[trigger] s[i] == '_' || alphanumeric(s[i]),
    ensures
        split_at_char(s, '_').len() >= 1,
        forall|k: int| 0 <= k < split_at_char(s, '_').len() ==> clean(#[trigger] split_at_char(s, '_')[k]),
    decreases s.len(),
{
    if s.len() > 0 {
        pieces_are_clean(s.drop_last());
        let before = split_at_char(s.drop_last(), '_');
        assert(clean(before.last()));
        assert(s.last() == s[s.len() - 1]);
        assert forall|k: int| 0 <= k < split_at_char(s, '_').len() implies clean(
            #[trigger] split_at_char(s, '_')[k],
        ) by {
            if k < before.len() - 1 {
                assert(clean(before[k]));
            } else if s.last() != '_' {
                assert(split_at_char(s, '_')[k] == before.last().push(s.last()));
            } else if k < before.len() {
                assert(clean(before[k]));
            }
        }
    }
}

proof fn joined_words_are_shaped(words: Seq<Seq<char>>)
    requires
        forall|k: int| 0 <= k < words.len() ==> is_word(#[trigger] words[k]),
    ensures
        slug_shaped(joined(words, "_"@)),
        words.len() > 0 ==> joined(words, "_"@).len() > 0,
    decreases words.len(),
{
    reveal_strlit("_");
    if words.len() > 0 {
        assert(is_word(words.last()));
        if words.len() > 1 {
            joined_words_are_shaped(words.drop_last());
            let a = joined(words.drop_last(), "_"@);
            let w = words.last();
            let s = joined(words, "_"@);
            assert(s == a + "_"@ + w);
            assert(s.last() == w.last());
            assert forall|i: int| 0 <= i < s.len() implies #[trigger] s[i] == '_' || alphanumeric(
                s[i],
            ) by {
                if i < a.len() {
                    assert(s[i] == a[i]);
                } else if i > a.len() {
                    assert(s[i] == w[i - a.len() - 1]);
                }
            }
            assert forall|i: int, j: int|
                0 <= i < s.len() && j == i + 1 && j < s.len() implies !(#[trigger] s[i] == '_'
                && #[trigger] s[j] == '_') by {
                if j < a.len() {
                    assert(s[i] == a[i] && s[j] == a[j]);
                } else if i < a.len() {
                    assert(s[i] == a[i] && i == a.len() - 1);
                } else {
                    assert(s[j] == w[j - a.len() - 1]);
                }
            }
        }
    }
}

/// Each character of `p` stands in `s`.
spec fn drawn_from(p: Seq<char>, s: Seq<char>) -> bool {
    forall|i: int| 0 <= i < p.len() ==> s.contains(#[trigger] p[i])
}

proof fn pieces_are_drawn(s: Seq<char>, sep: char)
    ensures
        split_at_char(s, sep).len() >= 1,
        forall|k: int| 0 <= k < split_at_char(s, sep).len() ==> drawn_from(#[trigger] split_at_char(s, sep)[k], s),
    decreases s.len(),
{
    if s.len() > 0 {
        let short = s.drop_last();
        pieces_are_drawn(short, sep);
        let before = split_at_char(short, sep);
        assert forall|p: Seq<char>| drawn_from(p, short) implies #[trigger] drawn_from(p, s) by {
            assert forall|i: int| 0 <= i < p.len() implies s.contains(#[trigger] p[i]) by {
                let j = choose|j: int| 0 <= j < short.len() && short[j] == p[i];
                assert(s[j] == p[i]);
            }
        }
        assert forall|k: int| 0 <= k < split_at_char(s, sep).len() implies drawn_from(
            #[trigger] split_at_char(s, sep)[k],
            s,
        ) by {
            if k < before.len() - 1 {
                assert(drawn_from(before[k], s));
            } else if s.last() != sep {
                assert(drawn_from(before.last(), s));
                assert(s[s.len() - 1] == s.last());
            } else if k < before.len() {
                assert(drawn_from(before[k], s));
            }
        }
    }
}

proof fn joined_words_are_drawn(words: Seq<Seq<char>>, s: Seq<char>)
    requires
        forall|k: int| 0 <= k < words.len() ==> drawn_from(#[trigger] words[k], s),
    ensures
        forall|i: int| 0 <= i < joined(words, "_"@).len() ==> #[trigger] joined(words, "_"@)[i] == '_'
            || s.contains(joined(words, "_"@)[i]),
    decreases words.len(),
{
    reveal_strlit("_");
    if words.len() > 0 {
        assert(drawn_from(words[words.len() - 1], s));
    }
    if words.len() > 1 {
        joined_words_are_drawn(words.drop_last(), s);
        let a = joined(words.drop_last(), "_"@);
        let w = words.last();
        let t = joined(words, "_"@);
        assert forall|i: int| 0 <= i < t.len() implies #[trigger] t[i] == '_' || s.contains(t[i]) by {
            if i < a.len() {
                assert(t[i] == a[i]);
            } else if i > a.len() {
                assert(t[i] == w[i - a.len() - 1]);
            }
        }
    }
}

/// What stands in a slug are underscores and characters of the lower-case form.
proof fn slugs_are_drawn(name: Seq<char>)
    ensures
        forall|i: int| 0 <= i < slug(name).len() ==> #[trigger] slug(name)[i] == '_' || lowercase(
            without_apostrophes(name),
        ).contains(slug(name)[i]),
{
    let lower = lowercase(without_apostrophes(name));
    let marked = underscored(lower);
    let parts = split_at_char(marked, '_');
    pieces_are_drawn(marked, '_');
    let words = filled(parts);
    assert forall|k: int| 0 <= k < words.len() implies drawn_from(#[trigger] words[k], marked) by {
        broadcast use vstd::seq_lib::group_filter_ensures;

        assert(words.contains(words[k]));
        parts.lemma_filter_contains_rev(|p: Seq<char>| p.len() > 0, words[k]);
        let j = choose|j: int| 0 <= j < parts.len() && parts[j] == words[k];
        assert(drawn_from(parts[j], marked));
    }
    joined_words_are_drawn(words, marked);
    assert forall|i: int| 0 <= i < slug(name).len() implies #[trigger] slug(name)[i] == '_'
        || lower.contains(slug(name)[i]) by {
        if slug(name)[i] != '_' {
            let j = choose|j: int| 0 <= j < marked.len() && marked[j] == slug(name)[i];
            assert(marked[j] == lower[j]);
        }
    }
}

proof fn split_and_joined(s: Seq<char>)
    ensures
        joined(split_at_char(s, '_'), "_"@) == s,
        split_at_char(s, '_').len() >= 1,
    decreases s.len(),
{
    reveal_strlit("_");
    if s.len() > 0 {
        let short = s.drop_last();
        split_and_joined(short);
        let before = split_at_char(short, '_');
        let parts = split_at_char(s, '_');
        if s.last() == '_' {
            assert(parts.drop_last() =~= before);
            assert(joined(parts, "_"@) =~= short.push('_'));
        } else {
            assert(parts.drop_last() =~= before.drop_last());
            if before.len() > 1 {
                assert(joined(parts, "_"@) =~= joined(before, "_"@).push(s.last()));
            }
        }
        assert(s =~= short.push(s.last()));
    } else {
        assert(s =~= Seq::empty());
    }
}

/// Behind a text without an underscore at its start and without two in a row, each
/// piece is filled, but for the last one where the text ends in an underscore.
proof fn pieces_are_filled(s: Seq<char>)
    requires
        s.len() > 0,
        s[0] != '_',
        forall|i: int, j: int|
            0 <= i < s.len() && j == i + 1 && j < s.len() ==> !(#[trigger] s[i] == '_' && #[trigger] s[j]
                == '_'),
    ensures
        split_at_char(s, '_').len() >= 1,
        forall|k: int| 0 <= k < split_at_char(s, '_').len() - 1 ==> (#[trigger] split_at_char(s, '_')[k]).len() > 0,
        s.last() != '_' ==> split_at_char(s, '_').last().len() > 0,
    decreases s.len(),
{
    let short = s.drop_last();
    let before = split_at_char(short, '_');
    let parts = split_at_char(s, '_');
    if short.len() > 0 {
        assert forall|i: int, j: int|
            0 <= i < short.len() && j == i + 1 && j < short.len() implies !(#[trigger] short[i] == '_'
            && #[trigger] short[j] == '_') by {
            assert(short[i] == s[i] && short[j] == s[j]);
        }
        pieces_are_filled(short);
        if s.last() == '_' {
            assert(s[s.len() - 2] != '_');
            assert(short.last() == s[s.len() - 2]);
            assert forall|k: int| 0 <= k < parts.len() - 1 implies (#[trigger] parts[k]).len() > 0 by {
                assert(parts[k] == before[k]);
            }
        } else {
            assert forall|k: int| 0 <= k < parts.len() - 1 implies (#[trigger] parts[k]).len() > 0 by {
                assert(parts[k] == before[k]);
            }
        }
    } else {
        assert(before.len() == 1);
        assert(s.last() == s[0]);
    }
}

proof fn all_are_kept(parts: Seq<Seq<char>>)
    requires
        forall|k: int| 0 <= k < parts.len() ==> (#[trigger] parts[k]).len() > 0,
    ensures
        filled(parts) == parts,
    decreases parts.len(),
{
    reveal(Seq::filter);
    if parts.len() > 0 {
        all_are_kept(parts.drop_last());
        assert(parts.last() == parts[parts.len() - 1]);
        assert(parts =~= parts.drop_last().push(parts.last()));
    }
}

proof fn no_apostrophe_is_dropped(s: Seq<char>)
    requires
        forall|i: int| 0 <= i < s.len() ==> !is_apostrophe(#[trigger] s[i]),
    ensures
        without_apostrophes(s) == s,
    decreases s.len(),
{
    reveal(Seq::filter);
    if s.len() > 0 {
        no_apostrophe_is_dropped(s.drop_last());
        assert(s.last() == s[s.len() - 1]);
        assert(s =~= s.drop_last().push(s.last()));
    }
}

/// A text that has the shape of a slug, no apostrophe, and that is its own
/// lower-case form is its own slug.
pub proof fn a_slug_is_its_own_slug(s: Seq<char>)
    requires
        slug_shaped(s),
        forall|i: int| 0 <= i < s.len() ==> !is_apostrophe(#[trigger] s[i]),
    ensures
        lowercase(s) == s ==> slug(s) == s,
{
    if lowercase(s) == s {
        no_apostrophe_is_dropped(s);
        assert(underscored(s) =~= s) by {
            assert forall|i: int| 0 <= i < s.len() implies underscored(s)[i] == s[i] by {
                assert(s[i] == '_' || alphanumeric(s[i]));
            }
        }
        let parts = split_at_char(s, '_');
        if s.len() > 0 {
            pieces_are_filled(s);
            split_and_joined(s);
            assert forall|k: int| 0 <= k < parts.len() implies (#[trigger] parts[k]).len() > 0 by {
                if k == parts.len() - 1 {
                    assert(parts[k] == parts.last());
                }
            }
            all_are_kept(parts);
        } else {
            reveal(Seq::filter);
            all_are_kept(parts.drop_last());
            assert(parts.last().len() == 0);
            assert(filled(parts) =~= Seq::empty());
            assert(s =~= Seq::empty());
        }
    }
}

/// Making a slug of a slug changes nothing: of a name in ASCII, and of any other
/// name whose slug is its own lower-case form and holds no apostrophe.
pub proof fn slugs_stay_as_they_are(name: Seq<char>)
    ensures
        is_ascii_chars(without_apostrophes(name)) ==> slug(slug(name)) == slug(name),
        lowercase(slug(name)) == slug(name) && (forall|i: int|
            0 <= i < slug(name).len() ==> !is_apostrophe(#[trigger] slug(name)[i])) ==> slug(slug(name))
            == slug(name),
{
    let s = slug(name);
    slug_has_its_shape(name);
    if is_ascii_chars(without_apostrophes(name)) {
        let bare = without_apostrophes(name);
        slugs_are_drawn(name);
        assert forall|i: int| 0 <= i < s.len() implies '\0' <= #[trigger] s[i] <= '\u{7f}'
            && !ascii_upper(s[i]) && !is_apostrophe(s[i]) by {
            if s[i] != '_' {
                let lower = lowercase(bare);
                let j = choose|j: int| 0 <= j < lower.len() && lower[j] == s[i];
                assert(lower[j] == ascii_lower_char(bare[j]));
                assert('\0' <= bare[j] <= '\u{7f}');
                assert(alphanumeric(s[i]));
            }
        }
        assert(is_ascii_chars(s));
        assert(ascii_lower_text(s) =~= s);
        a_slug_is_its_own_slug(s);
    }
    if forall|i: int| 0 <= i < s.len() ==> !is_apostrophe(#[trigger] s[i]) {
        a_slug_is_its_own_slug(s);
    }
}

// ----- Discord names ----------------------------------------------------------

/// The longest emoji name that Discord takes, in characters.
pub const EMOJI_NAME_MAX: usize = 32;

/// A text with an underscore for each character that is neither alphanumeric
/// nor an underscore.
pub open spec fn emoji_chars(s: Seq<char>) -> Seq<char> {
    Seq::new(
        s.len(),
        |i: int|
            if alphanumeric(s[i]) || s[i] == '_' {
                s[i]
            } else {
                '_'
            },
    )
}

/// A text without the underscores at its start.
pub open spec fn after_underscores(s: Seq<char>) -> Seq<char>
    decreases s.len(),
{
    if s.len() > 0 && s[0] == '_' {
        after_underscores(s.skip(1))
    } else {
        s
    }
}

/// The emoji name of a logical name: its characters made safe, leading
/// underscores dropped, `emoji` where nothing is left, cut to the longest name.
pub open spec fn emoji_name(logical: Seq<char>) -> Seq<char> {
    let rest = after_underscores(emoji_chars(logical));
    first_chars(
        if rest.len() == 0 {
            "emoji"@
        } else {
            rest
        },
        EMOJI_NAME_MAX as int,
    )
}

/// Convert a logical name to a Discord emoji name.
pub fn discord_name(logical: &str) -> (r: String)
    ensures
        r@ == emoji_name(logical@),
{
    let cs = chars(logical);
    let mut safe: Vec<char> = Vec::new();
    let mut i: usize = 0;
    while i < cs.len()
        invariant
            i <= cs@.len(),
            cs@ == logical@,
            safe@ == emoji_chars(logical@).take(i as int),
        decreases cs@.len() - i,
    {
        let c = cs[i];
        if c.is_alphanumeric() || c == '_' {
            safe.push(c);
        } else {
            safe.push('_');
        }
        i = i + 1;
        assert(emoji_chars(logical@).take(i as int) =~= emoji_chars(logical@).take(i - 1).push(
            emoji_chars(logical@)[i - 1],
        ));
    }
    assert(safe@ =~= emoji_chars(logical@));
    let mut from: usize = 0;
    assert(safe@.skip(0) =~= safe@);
    while from < safe.len() && safe[from] == '_'
        invariant
            from <= safe@.len(),
            after_underscores(safe@) == after_underscores(safe@.skip(from as int)),
        decreases safe@.len() - from,
    {
        assert(safe@.skip(from as int).skip(1) =~= safe@.skip(from + 1));
        from = from + 1;
    }
    let trimmed = text_of(safe.as_slice(), from, safe.len());
    assert(trimmed@ =~= safe@.skip(from as int));
    if trimmed.as_str().is_empty() {
        take_chars("emoji", EMOJI_NAME_MAX)
    } else {
        take_chars(&trimmed, EMOJI_NAME_MAX)
    }
}

/// An emoji name is never empty, never longer than the longest name, never
/// starts with an underscore, and holds only alphanumeric characters and
/// underscores (or is `emoji`).
pub proof fn emoji_name_is_safe(logical: Seq<char>)
    ensures
        0 < emoji_name(logical).len() <= EMOJI_NAME_MAX,
        emoji_name(logical)[0] != '_',
        emoji_name(logical) == "emoji"@ || forall|i: int|
            0 <= i < emoji_name(logical).len() ==> #[trigger] emoji_name(logical)[i] == '_'
                || alphanumeric(emoji_name(logical)[i]),
{
    reveal_strlit("emoji");
    let safe = emoji_chars(logical);
    after_underscores_is_a_tail(safe);
}

proof fn after_underscores_is_a_tail(s: Seq<char>)
    ensures
        after_underscores(s).len() <= s.len(),
        after_underscores(s) == s.skip(s.len() - after_underscores(s).len()),
        after_underscores(s).len() > 0 ==> after_underscores(s)[0] != '_',
    decreases s.len(),
{
    if s.len() > 0 && s[0] == '_' {
        after_underscores_is_a_tail(s.skip(1));
        let n = after_underscores(s).len();
        assert(s.skip(1).skip(s.len() - 1 - n) =~= s.skip(s.len() - n));
    } else {
        assert(s.skip(0) =~= s);
    }
}

// ----- image addresses -----------------------------------------------------------

/// The address that an image source of a wiki page stands for.
pub open spec fn absolute(src: Seq<char>) -> Seq<char> {
    if begins(src, "http"@) {
        src
    } else if begins(src, "//"@) {
        "https:"@ + src
    } else {
        REALMEYE_BASE@ + src
    }
}

/// Resolve an image source against the wiki.
pub fn absolute_url(src: &str) -> (r: String)
    ensures
        r@ == absolute(src@),
{
    if starts_with(src, "http") {
        own(src)
    } else if starts_with(src, "//") {
        cat2("https:", src)
    } else {
        cat2(REALMEYE_BASE, src)
    }
}

/// An address that was resolved begins with `http`, and resolving it again
/// changes nothing.
pub proof fn absolute_is_settled(src: Seq<char>)
    ensures
        begins(absolute(src), "http"@),
        absolute(absolute(src)) == absolute(src),
{
    reveal_strlit("http");
    reveal_strlit("https:");
    reveal_strlit("https://www.realmeye.com");
    if !begins(src, "http"@) {
        let a = absolute(src);
        assert(a.subrange(0, 4) =~= "http"@);
    }
}

/// An address that names its protocol stays; one without its protocol gets `https:`; a
/// path is one of the wiki.
pub proof fn sources_become_addresses(src: Seq<char>)
    ensures
        begins(src, "http"@) ==> absolute(src) == src,
        !begins(src, "http"@) && begins(src, "//"@) ==> absolute(src) == "https:"@ + src,
        !begins(src, "http"@) && !begins(src, "//"@) ==> absolute(src)
            == "https://www.realmeye.com"@ + src,
{
}

// ----- what names keep ---------------------------------------------------------------------------

/// A logical name that Discord takes as it is stays as it is.
pub proof fn safe_names_stay(logical: Seq<char>)
    requires
        0 < logical.len() <= 32,
        logical[0] != '_',
        forall|i: int| 0 <= i < logical.len() ==> #[trigger] logical[i] == '_' || alphanumeric(
            logical[i],
        ),
    ensures
        emoji_name(logical) == logical,
{
    assert(emoji_chars(logical) =~= logical);
}

/// Each character of a name that Discord does not take becomes an underscore, and
/// nothing else changes but at the ends: what is left is cut to the longest name.
pub proof fn unsafe_characters_become_underscores(logical: Seq<char>)
    ensures
        emoji_chars(logical).len() == logical.len(),
        forall|i: int|
            0 <= i < logical.len() ==> #[trigger] emoji_chars(logical)[i] == (if alphanumeric(
                logical[i],
            ) || logical[i] == '_' {
                logical[i]
            } else {
                '_'
            }),
        ({
            let rest = after_underscores(emoji_chars(logical));
            &&& rest.len() == 0 ==> emoji_name(logical) == "emoji"@
            &&& 0 < rest.len() <= 32 ==> emoji_name(logical) == rest
            &&& rest.len() > 32 ==> emoji_name(logical) == rest.take(32)
        }),
{
    reveal_strlit("emoji");
}

/// Of a name in ASCII the slug depends on nothing but its letters and digits, whatever
/// their case, and on where other characters than apostrophes stand between them.
pub proof fn slugs_ignore_case_and_separators(name: Seq<char>)
    requires
        is_ascii_chars(without_apostrophes(name)),
    ensures
        slug(name) == slug(underscored(ascii_lower_text(without_apostrophes(name)))),
        slug(name) == slug(without_apostrophes(name)),
        forall|i: int|
            0 <= i < name.len() ==> (#[trigger] name[i] == '\'' || name[i] == '\u{2019}')
                == is_apostrophe(name[i]),
{
    let bare = without_apostrophes(name);
    let low = ascii_lower_text(bare);
    let t = underscored(low);
    assert forall|i: int| 0 <= i < t.len() implies '\0' <= #[trigger] t[i] <= '\u{7f}'
        && !is_apostrophe(t[i]) && !ascii_upper(t[i]) by {
        assert('\0' <= bare[i] <= '\u{7f}');
        assert(low[i] == ascii_lower_char(bare[i]));
        if alphanumeric(low[i]) {
            assert(t[i] == low[i]);
        } else {
            assert(t[i] == '_');
        }
    }
    no_apostrophe_is_dropped(t);
    assert(ascii_lower_text(t) =~= t);
    assert(underscored(t) =~= t);
    bare_texts_have_no_apostrophe(name);
    no_apostrophe_is_dropped(bare);
}

proof fn bare_texts_have_no_apostrophe(s: Seq<char>)
    ensures
        forall|i: int|
            0 <= i < without_apostrophes(s).len() ==> !is_apostrophe(
                #[trigger] without_apostrophes(s)[i],
            ),
    decreases s.len(),
{
    reveal(Seq::filter);
    if s.len() > 0 {
        bare_texts_have_no_apostrophe(s.drop_last());
    }
}

/// The letters and digits of a text: it without its underscores.
pub open spec fn letters(s: Seq<char>) -> Seq<char> {
    s.filter(|c: char| c != '_')
}

spec fn all_letters_of(parts: Seq<Seq<char>>) -> Seq<char>
    decreases parts.len(),
{
    if parts.len() == 0 {
        Seq::empty()
    } else {
        all_letters_of(parts.drop_last()) + letters(parts.last())
    }
}

proof fn joining_keeps_letters(parts: Seq<Seq<char>>)
    ensures
        letters(joined(parts, "_"@)) == all_letters_of(parts),
    decreases parts.len(),
{
    reveal(Seq::filter);
    reveal_strlit("_");
    let not_mark = |c: char| c != '_';
    if parts.len() == 1 {
        assert(parts.drop_last() =~= Seq::empty());
        assert(all_letters_of(parts.drop_last()) =~= Seq::empty());
        assert(all_letters_of(parts) =~= letters(parts[0]));
    } else if parts.len() > 1 {
        joining_keeps_letters(parts.drop_last());
        let a = joined(parts.drop_last(), "_"@);
        Seq::filter_distributes_over_add(a + "_"@, parts.last(), not_mark);
        Seq::filter_distributes_over_add(a, "_"@, not_mark);
        assert("_"@ =~= Seq::empty().push('_'));
        assert("_"@.drop_last() =~= Seq::empty());
        assert(letters(Seq::empty()) =~= Seq::empty());
        assert("_"@.last() == '_');
        assert(letters("_"@) == letters("_"@.drop_last()));
        assert(letters(joined(parts, "_"@)) =~= all_letters_of(parts));
    }
}

proof fn filling_keeps_letters(parts: Seq<Seq<char>>)
    ensures
        all_letters_of(filled(parts)) == all_letters_of(parts),
    decreases parts.len(),
{
    reveal(Seq::filter);
    if parts.len() > 0 {
        let short = parts.drop_last();
        filling_keeps_letters(short);
        if parts.last().len() > 0 {
            assert(filled(parts) =~= filled(short).push(parts.last()));
            assert(filled(parts).drop_last() =~= filled(short));
        } else {
            assert(filled(parts) =~= filled(short));
            assert(letters(parts.last()) =~= Seq::empty());
            assert(all_letters_of(parts) =~= all_letters_of(short));
        }
    }
}

/// No letter and no digit of a name is lost on the way to its slug, and none is added:
/// without its underscores the slug is the lower-case name without everything that is
/// neither.
pub proof fn slugs_keep_every_letter(name: Seq<char>)
    ensures
        letters(slug(name)) == letters(underscored(lowercase(without_apostrophes(name)))),
{
    let marked = underscored(lowercase(without_apostrophes(name)));
    let parts = split_at_char(marked, '_');
    joining_keeps_letters(filled(parts));
    filling_keeps_letters(parts);
    joining_keeps_letters(parts);
    split_and_joined(marked);
}

} // verus!
