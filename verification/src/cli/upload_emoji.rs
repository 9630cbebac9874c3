//! Uploading one emoji by hand: which files and names are taken.

use vstd::prelude::*;
use vstd::string::StringSliceAdditionalSpecFns;

use crate::cli::sync_wiki::sections::bytes;
use crate::picture::{is_png, looks_like_png};
use crate::text::{cat2, cat3, chars, dec, dec_u64, Text};
use crate::unicode::{ascii_alnum, ascii_lower_char, is_ascii_alnum, lower_char};
use vstd::utf8::{is_ascii_chars, is_ascii_chars_encode_utf8};

verus! {

/// The longest name that Discord takes, in bytes.
pub const SAFE_NAME_MAX: usize = 32;

/// A character of a safe name.
pub open spec fn safe_char(c: char) -> bool {
    ascii_alnum(c) || c == '_'
}

/// The characters of a text that can stand in a name, in lower case.
pub open spec fn safe_chars(s: Seq<char>) -> Seq<char>
    decreases s.len(),
{
    if s.len() == 0 {
        Seq::empty()
    } else {
        let before = safe_chars(s.drop_last());
        let c = ascii_lower_char(s.last());
        if safe_char(c) {
            before.push(c)
        } else {
            before
        }
    }
}

/// The name that a logical name gets on Discord: its letters, digits and
/// underscores in lower case, cut to the longest name.
pub open spec fn safe_name(s: Seq<char>) -> Seq<char> {
    crate::text::first_chars(safe_chars(s), SAFE_NAME_MAX as int)
}

proof fn safe_chars_grow(s: Seq<char>, n: int)
    requires
        0 <= n <= s.len(),
    ensures
        safe_chars(s.take(n)).len() <= safe_chars(s).len(),
        safe_chars(s).take(safe_chars(s.take(n)).len() as int) == safe_chars(s.take(n)),
    decreases s.len() - n,
{
    if n < s.len() {
        safe_chars_grow(s, n + 1);
        assert(s.take(n + 1).drop_last() =~= s.take(n));
        let a = safe_chars(s.take(n));
        let b = safe_chars(s.take(n + 1));
        let all = safe_chars(s);
        assert(b.take(a.len() as int) =~= a);
        assert(all.take(b.len() as int).take(a.len() as int) =~= all.take(a.len() as int));
    } else {
        assert(s.take(n) =~= s);
        assert(safe_chars(s).take(safe_chars(s).len() as int) =~= safe_chars(s));
    }
}

/// Coerce a logical name into a name that Discord takes: letters, digits and
/// underscores only, in lower case, at most 32 of them.
pub fn discord_safe_name(s: &str) -> (r: String)
    ensures
        r@ == safe_name(s@),
{
    let cs = chars(s);
    let mut out = String::new();
    let mut n: usize = 0;
    let mut i: usize = 0;
    assert(s@.take(0) =~= Seq::<char>::empty());
    while i < cs.len() && n < SAFE_NAME_MAX
        invariant
            i <= cs@.len(),
            cs@ == s@,
            n == out@.len(),
            n <= SAFE_NAME_MAX,
            out@ == safe_chars(s@.take(i as int)),
        decreases cs@.len() - i,
    {
        let c = lower_char(cs[i]);
        assert(s@.take(i + 1).drop_last() =~= s@.take(i as int));
        assert(s@.take(i + 1).last() == cs@[i as int]);
        if is_ascii_alnum(c) || c == '_' {
            out.push(c);
            n = n + 1;
        }
        i = i + 1;
    }
    proof {
        safe_chars_grow(s@, i as int);
        if i == cs@.len() {
            assert(s@.take(i as int) =~= s@);
        }
    }
    out
}

proof fn safe_chars_are_safe(s: Seq<char>)
    ensures
        forall|i: int| 0 <= i < safe_chars(s).len() ==> safe_char(#[trigger] safe_chars(s)[i]) && !(
        'A' <= safe_chars(s)[i] <= 'Z'),
    decreases s.len(),
{
    if s.len() > 0 {
        safe_chars_are_safe(s.drop_last());
        let before = safe_chars(s.drop_last());
        let all = safe_chars(s);
        assert forall|i: int| 0 <= i < all.len() implies safe_char(#[trigger] all[i]) && !('A'
            <= all[i] <= 'Z') by {
            if i < before.len() {
                assert(all[i] == before[i]);
            }
        }
    }
}

/// A safe name has at most 32 characters, all of them lower-case letters, digits
/// and underscores, and as many bytes as characters.
pub proof fn safe_name_is_safe(s: Seq<char>)
    ensures
        safe_name(s).len() <= SAFE_NAME_MAX,
        forall|i: int| 0 <= i < safe_name(s).len() ==> safe_char(#[trigger] safe_name(s)[i]) && !(
        'A' <= safe_name(s)[i] <= 'Z'),
        bytes(safe_name(s)).len() == safe_name(s).len(),
{
    safe_chars_are_safe(s);
    let all = safe_chars(s);
    let r = safe_name(s);
    assert forall|i: int| 0 <= i < r.len() implies safe_char(#[trigger] r[i]) && !('A' <= r[i]
        <= 'Z') by {
        assert(r[i] == all[i]);
    }
    assert(is_ascii_chars(r));
    is_ascii_chars_encode_utf8(r);
}

/// The name under which a file is uploaded: the given one, else a safe form of
/// the logical name.
pub open spec fn upload_name(logical: Seq<char>, given: Option<String>) -> Seq<char> {
    match given {
        Some(n) => n@,
        None => safe_name(logical),
    }
}

/// Why a file is not uploaded.
#[derive(Debug)]
pub enum UploadError {
    /// The file does not begin like a PNG file.
    NotPng,
    /// The name on Discord is too long.
    NameTooLong(String),
}

/// Check a file and a name before they are sent to Discord: the name to upload
/// the file under.
pub fn check_upload(file: &[u8], logical_name: &str, discord_name: Option<String>) -> (r: Result<
    String,
    UploadError,
>)
    ensures
        match r {
            Ok(name) => looks_like_png(file@) && name@ == upload_name(logical_name@, discord_name)
                && bytes(name@).len() <= SAFE_NAME_MAX,
            Err(UploadError::NotPng) => !looks_like_png(file@),
            Err(UploadError::NameTooLong(name)) => looks_like_png(file@) && name@ == upload_name(
                logical_name@,
                discord_name,
            ) && bytes(name@).len() > SAFE_NAME_MAX,
        },
{
    if !is_png(file) {
        return Err(UploadError::NotPng);
    }
    let name = match discord_name {
        Some(n) => n,
        None => discord_safe_name(logical_name),
    };
    if name.as_str().as_bytes().len() > SAFE_NAME_MAX {
        Err(UploadError::NameTooLong(name))
    } else {
        Ok(name)
    }
}

/// A name that is not given is never too long.
pub proof fn derived_names_fit(logical: Seq<char>)
    ensures
        bytes(upload_name(logical, None)).len() <= SAFE_NAME_MAX,
{
    safe_name_is_safe(logical);
}

/// What the operator is told of a file that is not uploaded.
pub fn upload_refused(e: &UploadError, path: &str) -> (r: String)
    ensures
        r@ == (match *e {
            UploadError::NotPng => path@ + ": not a PNG (magic bytes don't match)"@,
            UploadError::NameTooLong(name) => "Discord-side name `"@ + name@
                + "` is >32 chars. Pass a shorter value via --discord-name."@,
        }),
{
    match e {
        UploadError::NotPng => cat2(path, ": not a PNG (magic bytes don't match)"),
        UploadError::NameTooLong(name) => cat3(
            "Discord-side name `",
            name,
            "` is >32 chars. Pass a shorter value via --discord-name.",
        ),
    }
}

/// What the operator is told of an upload.
pub fn upload_done(logical_name: &str, name_on_discord: &str, emoji_id: u64) -> (r: String)
    ensures
        r@ == "✔ uploaded `"@ + logical_name@ + "` as <:"@ + name_on_discord@ + ":"@ + dec(
            emoji_id as int,
        ) + ">"@,
{
    Text::new("✔ uploaded `").add(logical_name).add("` as <:").add(name_on_discord).add(":").add(
        &dec_u64(emoji_id),
    ).add(">").done()
}

/// Each character of a name stays, in lower case, exactly where Discord takes it; the
/// others are dropped. A name that was given is taken as it is.
pub proof fn names_keep_what_discord_takes(s: Seq<char>, c: char)
    ensures
        safe_chars(Seq::empty()).len() == 0,
        'a' <= c <= 'z' || '0' <= c <= '9' || c == '_' ==> safe_chars(s.push(c)) == safe_chars(
            s,
        ).push(c),
        'A' <= c <= 'Z' ==> safe_chars(s.push(c)) == safe_chars(s).push((c as u8 + 32) as u8 as char),
        !('a' <= c <= 'z' || 'A' <= c <= 'Z' || '0' <= c <= '9' || c == '_') ==> safe_chars(
            s.push(c),
        ) == safe_chars(s),
        safe_chars(s).len() <= 32 ==> safe_name(s) == safe_chars(s),
        safe_chars(s).len() > 32 ==> safe_name(s) == safe_chars(s).take(32),
        forall|given: String| #[trigger] upload_name(s, Some(given)) == given@,
        upload_name(s, None) == safe_name(s),
{
    assert(s.push(c).drop_last() =~= s);
}

} // verus!
