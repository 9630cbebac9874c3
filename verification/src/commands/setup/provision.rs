//! What the setup wizard makes on Discord: which channels and roles it reuses,
//! and which it makes anew.

use vstd::prelude::*;

use crate::db::models::Tier;
use crate::text::{cat2, chars, eq_ignore_case, same, same_but_case, text_of, trim, trimmed};
use crate::unicode::{
    ascii_alnum, ascii_digit, ascii_lower, ascii_lower_char, ascii_lower_text, is_ascii_alnum,
    lower_char,
};

verus! {

/// The kind of a channel.
#[derive(Debug, Clone, Copy, PartialEq, Eq, Structural)]
pub enum ChannelKind {
    /// A text channel.
    Text,
    /// A category.
    Category,
    /// Any other.
    Other,
}

/// A channel of the server.
#[derive(Debug)]
pub struct ChannelInfo {
    /// Its id.
    pub id: u64,
    /// Its name.
    pub name: String,
    /// Its kind.
    pub kind: ChannelKind,
    /// The category that it stands in.
    pub parent: Option<u64>,
}

/// A role of the server.
#[derive(Debug)]
pub struct RoleInfo {
    /// Its id.
    pub id: u64,
    /// Its name.
    pub name: String,
}

/// A channel is of a kind, has a name, but for case, and stands in a category
/// where one is given.
pub open spec fn is_channel(
    c: ChannelInfo,
    kind: ChannelKind,
    name: Seq<char>,
    parent: Option<u64>,
) -> bool {
    c.kind == kind && same_but_case(c.name@, name) && (parent is Some ==> c.parent == parent)
}

/// The id of the first such channel, from `from` on.
pub open spec fn channel_named(
    channels: Seq<ChannelInfo>,
    kind: ChannelKind,
    name: Seq<char>,
    parent: Option<u64>,
    from: int,
) -> Option<u64>
    decreases channels.len() - from,
{
    if from < 0 || from >= channels.len() {
        None
    } else if is_channel(channels[from], kind, name, parent) {
        Some(channels[from].id)
    } else {
        channel_named(channels, kind, name, parent, from + 1)
    }
}

fn in_parent(c: &ChannelInfo, parent: Option<u64>) -> (r: bool)
    ensures
        r == (parent is Some ==> c.parent == parent),
{
    match parent {
        None => true,
        Some(p) => match c.parent {
            Some(q) => p == q,
            None => false,
        },
    }
}

/// The id of the first channel of a kind with a name, but for case, in a category
/// where one is given.
pub fn find_channel(
    channels: &Vec<ChannelInfo>,
    kind: ChannelKind,
    name: &str,
    parent: Option<u64>,
) -> (r: Option<u64>)
    ensures
        r == channel_named(channels@, kind, name@, parent, 0),
{
    let mut i: usize = 0;
    while i < channels.len()
        invariant
            i <= channels@.len(),
            channel_named(channels@, kind, name@, parent, 0) == channel_named(
                channels@,
                kind,
                name@,
                parent,
                i as int,
            ),
        decreases channels@.len() - i,
    {
        let c = &channels[i];
        if c.kind == kind && eq_ignore_case(&c.name, name) && in_parent(c, parent) {
            return Some(c.id);
        }
        i = i + 1;
    }
    None
}

/// A channel that is reused: one with the fancy name, else one with the plain
/// name.
pub open spec fn reusable(
    channels: Seq<ChannelInfo>,
    fancy: Seq<char>,
    plain: Seq<char>,
    parent: Option<u64>,
) -> Option<u64> {
    match channel_named(channels, ChannelKind::Text, fancy, parent, 0) {
        Some(id) => Some(id),
        None => channel_named(channels, ChannelKind::Text, plain, parent, 0),
    }
}

/// A text channel that is reused: one with the fancy name, else one with the
/// plain name.
pub fn find_reusable(
    channels: &Vec<ChannelInfo>,
    fancy: &str,
    plain: &str,
    parent: Option<u64>,
) -> (r: Option<u64>)
    ensures
        r == reusable(channels@, fancy@, plain@, parent),
{
    match find_channel(channels, ChannelKind::Text, fancy, parent) {
        Some(id) => Some(id),
        None => find_channel(channels, ChannelKind::Text, plain, parent),
    }
}

/// The name of the log channel.
pub const LOG_FANCY: &'static str = "🚀starship-log";

/// The name of the log channel where Discord refuses the other.
pub const LOG_PLAIN: &'static str = "starship-log";

/// The name of the verification channel.
pub const VERIFY_FANCY: &'static str = "🔐verify";

/// The name of the verification channel where Discord refuses the other.
pub const VERIFY_PLAIN: &'static str = "verify";

/// The name of the channel of the start-run UI.
pub const START_FANCY: &'static str = "🚀start-a-run";

/// The name of the channel of the start-run UI where Discord refuses the other.
pub const START_PLAIN: &'static str = "start-a-run";

/// The name of the category of the raid channels.
pub const RAIDS_CATEGORY: &'static str = "Raids";

/// The name of the role of verified members.
pub const VERIFIED_ROLE: &'static str = "Verified";

/// The name of the role of raid leaders.
pub const LEADER_ROLE: &'static str = "Raid Leader";

/// The log channel that is reused.
pub fn find_log_channel(channels: &Vec<ChannelInfo>) -> (r: Option<u64>)
    ensures
        r == reusable(channels@, LOG_FANCY@, LOG_PLAIN@, None),
{
    find_reusable(channels, LOG_FANCY, LOG_PLAIN, None)
}

/// The verification channel that is reused.
pub fn find_verify_channel(channels: &Vec<ChannelInfo>) -> (r: Option<u64>)
    ensures
        r == reusable(channels@, VERIFY_FANCY@, VERIFY_PLAIN@, None),
{
    find_reusable(channels, VERIFY_FANCY, VERIFY_PLAIN, None)
}

/// The channel of the start-run UI that is reused, in the category of the raids.
pub fn find_start_run_ui_channel(channels: &Vec<ChannelInfo>, category: u64) -> (r: Option<u64>)
    ensures
        r == reusable(channels@, START_FANCY@, START_PLAIN@, Some(category)),
{
    find_reusable(channels, START_FANCY, START_PLAIN, Some(category))
}

/// The id of the first role with a name, but for case, from `from` on.
pub open spec fn role_named(roles: Seq<RoleInfo>, name: Seq<char>, from: int) -> Option<u64>
    decreases roles.len() - from,
{
    if from < 0 || from >= roles.len() {
        None
    } else if same_but_case(roles[from].name@, name) {
        Some(roles[from].id)
    } else {
        role_named(roles, name, from + 1)
    }
}

/// The id of the first role with a name, but for case.
pub fn find_role(roles: &Vec<RoleInfo>, name: &str) -> (r: Option<u64>)
    ensures
        r == role_named(roles@, name@, 0),
{
    let mut i: usize = 0;
    while i < roles.len()
        invariant
            i <= roles@.len(),
            role_named(roles@, name@, 0) == role_named(roles@, name@, i as int),
        decreases roles@.len() - i,
    {
        if eq_ignore_case(&roles[i].name, name) {
            return Some(roles[i].id);
        }
        i = i + 1;
    }
    None
}

// ----- the channels of a tier ------------------------------------------------------------

/// A text of lower-case letters, digits and single hyphens, built up character by
/// character; a hyphen is not doubled and does not come first.
pub open spec fn hyphenated(s: Seq<char>) -> Seq<char>
    decreases s.len(),
{
    if s.len() == 0 {
        Seq::empty()
    } else {
        let before = hyphenated(s.drop_last());
        let c = ascii_lower_char(s.last());
        if ascii_alnum(c) {
            before.push(c)
        } else if before.len() == 0 || before.last() == '-' {
            before
        } else {
            before.push('-')
        }
    }
}

/// A text without a hyphen at its end.
pub open spec fn without_last_hyphen(s: Seq<char>) -> Seq<char> {
    if s.len() > 0 && s.last() == '-' {
        s.drop_last()
    } else {
        s
    }
}

/// The name of a tier, as a part of channel names: lower-case letters and digits
/// in words with single hyphens between them.
pub open spec fn channel_slug(s: Seq<char>) -> Seq<char> {
    without_last_hyphen(hyphenated(trimmed(s)))
}

/// A character of a part of a channel name: a hyphen, a lower-case letter or a digit.
pub open spec fn channel_char(c: char) -> bool {
    c == '-' || ascii_lower(c) || ascii_digit(c)
}

/// The shape of a part of a channel name.
pub open spec fn channel_shaped(s: Seq<char>) -> bool {
    &&& forall|i: int| 0 <= i < s.len() ==> channel_char(#[trigger] s[i])
    &&& s.len() > 0 ==> s[0] != '-'
    &&& forall|i: int, j: int|
        0 <= i < s.len() && j == i + 1 && j < s.len() ==> !(#[trigger] s[i] == '-'
            && #[trigger] s[j] == '-')
}

proof fn hyphenated_is_shaped(s: Seq<char>)
    ensures
        channel_shaped(hyphenated(s)),
    decreases s.len(),
{
    if s.len() > 0 {
        hyphenated_is_shaped(s.drop_last());
        let before = hyphenated(s.drop_last());
        let all = hyphenated(s);
        assert forall|i: int| 0 <= i < all.len() implies channel_char(#[trigger] all[i]) by {
            if i < before.len() {
                assert(all[i] == before[i]);
            }
        }
        assert forall|i: int, j: int| 0 <= i < all.len() && j == i + 1 && j < all.len() implies !(
        #[trigger] all[i] == '-' && #[trigger] all[j] == '-') by {
            assert(all[i] == before[i]);
            if j < before.len() {
                assert(all[j] == before[j]);
            }
        }
    }
}

/// Whatever the name of a tier, its part of a channel name holds lower-case
/// letters, digits and hyphens, with no hyphen at either end and no two in a row.
pub proof fn channel_slug_has_its_shape(s: Seq<char>)
    ensures
        channel_shaped(channel_slug(s)),
        channel_slug(s).len() > 0 ==> channel_slug(s).last() != '-',
{
    let h = hyphenated(trimmed(s));
    hyphenated_is_shaped(trimmed(s));
    let r = channel_slug(s);
    if h.len() > 0 && h.last() == '-' {
        assert(r == h.drop_last());
        assert forall|i: int| 0 <= i < r.len() implies channel_char(#[trigger] r[i]) by {
            assert(r[i] == h[i]);
        }
        assert forall|i: int, j: int| 0 <= i < r.len() && j == i + 1 && j < r.len() implies !(
        #[trigger] r[i] == '-' && #[trigger] r[j] == '-') by {
            assert(r[i] == h[i] && r[j] == h[j]);
        }
        if r.len() > 0 {
            assert(r.last() == h[h.len() - 2]);
            assert(h[h.len() - 1] == '-');
        }
    }
}

/// The name of a tier, as a part of channel names.
pub fn slugify(s: &str) -> (r: String)
    ensures
        r@ == channel_slug(s@),
{
    let t = trim(s);
    let cs = chars(&t);
    let mut out: Vec<char> = Vec::new();
    let mut i: usize = 0;
    assert(t@.take(0) =~= Seq::<char>::empty());
    while i < cs.len()
        invariant
            i <= cs@.len(),
            cs@ == t@,
            out@ == hyphenated(t@.take(i as int)),
        decreases cs@.len() - i,
    {
        let c = lower_char(cs[i]);
        assert(t@.take(i + 1).drop_last() =~= t@.take(i as int));
        assert(t@.take(i + 1).last() == cs@[i as int]);
        if is_ascii_alnum(c) {
            out.push(c);
        } else if out.len() > 0 && out[out.len() - 1] != '-' {
            out.push('-');
        }
        i = i + 1;
    }
    assert(t@.take(i as int) =~= t@);
    let n: usize = out.len();
    if n > 0 && out[n - 1] == '-' {
        let r = text_of(out.as_slice(), 0, n - 1);
        assert(r@ =~= out@.drop_last());
        r
    } else {
        let r = text_of(out.as_slice(), 0, n);
        assert(r@ =~= out@);
        r
    }
}

/// The name of the channel of a tier's runs.
pub fn runs_channel_name(tier_name: &str) -> (r: String)
    ensures
        r@ == channel_slug(tier_name@) + "-runs"@,
{
    cat2(&slugify(tier_name), "-runs")
}

/// The channel of a tier's runs that is reused: the one that is called after its runs,
/// else the one that is called after its raid room.
pub open spec fn runs_channel(
    channels: Seq<ChannelInfo>,
    tier_name: Seq<char>,
    category: u64,
) -> Option<u64> {
    reusable(
        channels,
        channel_slug(tier_name) + "-runs"@,
        channel_slug(tier_name) + "-raid-room"@,
        Some(category),
    )
}

/// The category of the raids that is reused.
pub fn find_raids_category(channels: &Vec<ChannelInfo>) -> (r: Option<u64>)
    ensures
        r == channel_named(channels@, ChannelKind::Category, RAIDS_CATEGORY@, None, 0),
{
    find_channel(channels, ChannelKind::Category, RAIDS_CATEGORY, None)
}

/// The channel of a tier's runs that is reused.
pub fn find_runs_channel(channels: &Vec<ChannelInfo>, tier_name: &str, category: u64) -> (r: Option<
    u64,
>)
    ensures
        r == runs_channel(channels@, tier_name@, category),
{
    let slug = slugify(tier_name);
    find_reusable(channels, &cat2(&slug, "-runs"), &cat2(&slug, "-raid-room"), Some(category))
}

/// The first tier with a name, from `from` on.
pub open spec fn tier_named(tiers: Seq<Tier>, name: Seq<char>, from: int) -> Option<int>
    decreases tiers.len() - from,
{
    if from < 0 || from >= tiers.len() {
        None
    } else if tiers[from].name@ == name {
        Some(from)
    } else {
        tier_named(tiers, name, from + 1)
    }
}

/// The tier that the quick setup reuses: the one called `Main`.
pub fn find_main_tier(tiers: &Vec<Tier>) -> (r: Option<usize>)
    ensures
        match r {
            Some(i) => tier_named(tiers@, "Main"@, 0) == Some(i as int) && i < tiers@.len(),
            None => tier_named(tiers@, "Main"@, 0) is None,
        },
{
    let mut i: usize = 0;
    while i < tiers.len()
        invariant
            i <= tiers@.len(),
            tier_named(tiers@, "Main"@, 0) == tier_named(tiers@, "Main"@, i as int),
        decreases tiers@.len() - i,
    {
        if same(&tiers[i].name, "Main") {
            return Some(i);
        }
        i = i + 1;
    }
    None
}

// ----- who sees the verification channel ---------------------------------------------------

/// Something that can be done in a channel.
#[derive(Debug, Clone, Copy, PartialEq, Eq, Structural)]
pub enum Right {
    /// See it.
    ViewChannel,
    /// Read what was written.
    ReadHistory,
    /// Write.
    SendMessages,
    /// React.
    AddReactions,
    /// Open public threads.
    PublicThreads,
    /// Open private threads.
    PrivateThreads,
}

/// What a role may and may not do in a channel.
#[derive(Debug)]
pub struct Overwrite {
    /// The role.
    pub role: u64,
    /// What it may do.
    pub allow: Vec<Right>,
    /// What it may not do.
    pub deny: Vec<Right>,
}

/// What everyone and verified members may do in the verification channel:
/// everyone reads and nobody writes; verified members do not see it.
pub fn verify_channel_overwrites(everyone: u64, verified: u64) -> (r: Vec<Overwrite>)
    ensures
        r@.len() == 2,
        r@[0].role == everyone,
        r@[0].allow@ == seq![Right::ViewChannel, Right::ReadHistory],
        r@[0].deny@ == seq![
            Right::SendMessages,
            Right::AddReactions,
            Right::PublicThreads,
            Right::PrivateThreads,
        ],
        r@[1].role == verified,
        r@[1].allow@ == Seq::<Right>::empty(),
        r@[1].deny@ == seq![Right::ViewChannel],
{
    let mut allow: Vec<Right> = Vec::new();
    allow.push(Right::ViewChannel);
    allow.push(Right::ReadHistory);
    let mut deny: Vec<Right> = Vec::new();
    deny.push(Right::SendMessages);
    deny.push(Right::AddReactions);
    deny.push(Right::PublicThreads);
    deny.push(Right::PrivateThreads);
    let mut hidden: Vec<Right> = Vec::new();
    hidden.push(Right::ViewChannel);
    let mut out: Vec<Overwrite> = Vec::new();
    out.push(Overwrite { role: everyone, allow, deny });
    out.push(Overwrite { role: verified, allow: Vec::new(), deny: hidden });
    out
}

/// What is to be done about the Verify message: one that is still there is kept,
/// else a new one is posted.
#[derive(Debug, Clone, Copy, PartialEq, Eq, Structural)]
pub enum VerifyMessage {
    /// Keep this message.
    Keep(u64),
    /// Post a new message.
    Post,
}

/// What is to be done about the Verify message.
pub fn verify_message(existing: Option<u64>, alive: bool) -> (r: VerifyMessage)
    ensures
        r == (match existing {
            Some(id) => if alive {
                VerifyMessage::Keep(id)
            } else {
                VerifyMessage::Post
            },
            None => VerifyMessage::Post,
        }),
{
    match existing {
        Some(id) => if alive {
            VerifyMessage::Keep(id)
        } else {
            VerifyMessage::Post
        },
        None => VerifyMessage::Post,
    }
}

// ----- which channels and roles are used again ------------------------------------------------------

/// A channel that is found is of the kind asked for, has the name but for the case of its
/// letters, and stands in the category where one is named; it is the first of these, and
/// where none is found there is none.
pub proof fn channels_are_found_by_name(
    channels: Seq<ChannelInfo>,
    kind: ChannelKind,
    name: Seq<char>,
    parent: Option<u64>,
    from: int,
) -> (i: int)
    requires
        0 <= from <= channels.len(),
    ensures
        from <= i <= channels.len(),
        channel_named(channels, kind, name, parent, from) is Some <==> i < channels.len(),
        i < channels.len() ==> {
            let c = channels[i];
            &&& channel_named(channels, kind, name, parent, from) == Some(c.id)
            &&& c.kind == kind
            &&& ascii_lower_text(c.name@) == ascii_lower_text(name)
            &&& parent is Some ==> c.parent == parent
        },
        forall|k: int|
            #![trigger channels[k]]
            from <= k < i ==> !(channels[k].kind == kind && ascii_lower_text(channels[k].name@)
                == ascii_lower_text(name) && (parent is None || channels[k].parent == parent)),
    decreases channels.len() - from,
{
    if from >= channels.len() {
        channels.len() as int
    } else if is_channel(channels[from], kind, name, parent) {
        from
    } else {
        channels_are_found_by_name(channels, kind, name, parent, from + 1)
    }
}

/// A text channel under the decorated name comes before one under the plain name; one of
/// either is used again, and where there is neither, none is.
pub proof fn decorated_names_come_first(
    channels: Seq<ChannelInfo>,
    fancy: Seq<char>,
    plain: Seq<char>,
    parent: Option<u64>,
)
    ensures
        ({
            let decorated = channel_named(channels, ChannelKind::Text, fancy, parent, 0);
            let simple = channel_named(channels, ChannelKind::Text, plain, parent, 0);
            let used = reusable(channels, fancy, plain, parent);
            &&& decorated is Some ==> used == decorated
            &&& decorated is None ==> used == simple
        }),
{
}

/// A role that is found has the name but for the case of its letters, and is the first
/// that does; where none is found no role does.
pub proof fn roles_are_found_by_name(roles: Seq<RoleInfo>, name: Seq<char>, from: int) -> (i: int)
    requires
        0 <= from <= roles.len(),
    ensures
        from <= i <= roles.len(),
        role_named(roles, name, from) is Some <==> i < roles.len(),
        i < roles.len() ==> role_named(roles, name, from) == Some(roles[i].id) && ascii_lower_text(
            roles[i].name@,
        ) == ascii_lower_text(name),
        forall|k: int|
            from <= k < i ==> ascii_lower_text((#[trigger] roles[k]).name@) != ascii_lower_text(name),
    decreases roles.len() - from,
{
    if from >= roles.len() {
        roles.len() as int
    } else if same_but_case(roles[from].name@, name) {
        from
    } else {
        roles_are_found_by_name(roles, name, from + 1)
    }
}

/// The tier that is looked for by name is the first that has it, letter for letter.
pub proof fn tiers_are_found_by_name(tiers: Seq<Tier>, name: Seq<char>, from: int)
    requires
        0 <= from,
    ensures
        tier_named(tiers, name, from) matches Some(i) ==> from <= i < tiers.len() && tiers[i].name@
            == name && forall|k: int| from <= k < i ==> (#[trigger] tiers[k]).name@ != name,
        tier_named(tiers, name, from) is None ==> forall|k: int|
            from <= k < tiers.len() ==> (#[trigger] tiers[k]).name@ != name,
    decreases tiers.len() - from,
{
    if from < tiers.len() {
        tiers_are_found_by_name(tiers, name, from + 1);
    }
}

/// A tier's runs channel is looked for in the tier's category, under the name that it is
/// made with, and under an older one.
pub proof fn runs_channels_are_named_after_the_tier(
    channels: Seq<ChannelInfo>,
    tier_name: Seq<char>,
    category: u64,
)
    ensures
        ({
            let slug = channel_slug(tier_name);
            let made = channel_named(
                channels,
                ChannelKind::Text,
                slug + "-runs"@,
                Some(category),
                0,
            );
            let older = channel_named(
                channels,
                ChannelKind::Text,
                slug + "-raid-room"@,
                Some(category),
                0,
            );
            &&& made is Some ==> runs_channel(channels, tier_name, category) == made
            &&& made is None ==> runs_channel(channels, tier_name, category) == older
        }),
{
}

/// A letter or digit that follows stays, in lower case; anything else becomes one hyphen
/// between letters and digits, however much of it there is, and none at the start.
pub proof fn names_become_words_with_hyphens(s: Seq<char>, c: char)
    ensures
        hyphenated(Seq::empty()).len() == 0,
        'a' <= c <= 'z' || '0' <= c <= '9' ==> hyphenated(s.push(c)) == hyphenated(s).push(c),
        'A' <= c <= 'Z' ==> hyphenated(s.push(c)) == hyphenated(s).push(
            (c as u8 + 32) as u8 as char,
        ),
        !('a' <= c <= 'z' || 'A' <= c <= 'Z' || '0' <= c <= '9') ==> {
            &&& hyphenated(s).len() == 0 || hyphenated(s).last() == '-' ==> hyphenated(s.push(c))
                == hyphenated(s)
            &&& hyphenated(s).len() > 0 && hyphenated(s).last() != '-' ==> hyphenated(s.push(c))
                == hyphenated(s).push('-')
        },
        channel_slug(s) == (if hyphenated(trimmed(s)).len() > 0 && hyphenated(trimmed(s)).last()
            == '-' {
            hyphenated(trimmed(s)).drop_last()
        } else {
            hyphenated(trimmed(s))
        }),
{
    assert(s.push(c).drop_last() =~= s);
}

} // verus!
