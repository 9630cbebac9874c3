//! `/verify` and `/mv`: who can be verified, and as what.

use vstd::prelude::*;
use vstd::string::StringSliceAdditionalSpecFns;
use vstd::utf8::{is_ascii_chars, is_ascii_chars_encode_utf8};

use crate::cli::sync_wiki::sections::bytes;
use crate::mention::{user, user_u64};
use crate::text::{cat4, chars, own, trim, trimmed};
use crate::unicode::{ascii_letter, is_ascii_letter};

verus! {

/// What a member is told where verification is not configured.
pub const NOT_CONFIGURED: &'static str =
    "Verification isn't configured yet — ask an admin to run /setup \
    and pick a Verified role.";

/// Whether members can verify themselves: the server is known and has a role for
/// verified members. The outer `None` is a server that is not known.
pub fn can_self_verify(verified_role: Option<Option<i64>>) -> (r: bool)
    ensures
        r == (verified_role is Some && verified_role->0 is Some),
{
    match verified_role {
        Some(role) => role.is_some(),
        None => false,
    }
}

/// Every character is an ASCII letter.
pub open spec fn all_letters(s: Seq<char>) -> bool {
    forall|i: int| 0 <= i < s.len() ==> ascii_letter(#[trigger] s[i])
}

/// Whether every character is an ASCII letter.
pub fn only_letters(s: &str) -> (r: bool)
    ensures
        r == all_letters(s@),
{
    let cs = chars(s);
    let mut i: usize = 0;
    while i < cs.len()
        invariant
            i <= cs@.len(),
            cs@ == s@,
            forall|k: int| 0 <= k < i ==> ascii_letter(#[trigger] s@[k]),
        decreases cs@.len() - i,
    {
        if !is_ascii_letter(cs[i]) {
            return false;
        }
        i = i + 1;
    }
    true
}

/// The longest name that is taken by hand.
pub const MANUAL_NAME_MAX: usize = 20;

/// Why somebody is not verified by hand.
#[derive(Debug, Clone, Copy, PartialEq, Eq, Structural)]
pub enum ManualRefusal {
    /// The server is not known.
    ServerUnknown,
    /// The server has no role for verified members.
    NoRole,
    /// The name is empty.
    NameEmpty,
    /// The name is not one that the game allows.
    NameImplausible,
    /// A bot cannot be verified.
    Bot,
}

impl ManualRefusal {
    /// What the admin is told.
    pub open spec fn text(self) -> Seq<char> {
        match self {
            ManualRefusal::ServerUnknown => "This server hasn't been set up yet. Run /setup first."@,
            ManualRefusal::NoRole =>
                "Verification isn't configured yet — finish /setup's verification section first."@,
            ManualRefusal::NameEmpty => "Please provide an in-game name."@,
            ManualRefusal::NameImplausible =>
                "That doesn't look like a RotMG IGN — should be 1-12 letters, alphabetic only."@,
            ManualRefusal::Bot => "Bots can't be verified."@,
        }
    }

    /// What the admin is told.
    pub fn message(&self) -> (r: String)
        ensures
            r@ == self.text(),
    {
        match self {
            ManualRefusal::ServerUnknown => own(
                "This server hasn't been set up yet. Run /setup first.",
            ),
            ManualRefusal::NoRole => own(
                "Verification isn't configured yet — finish /setup's verification section first.",
            ),
            ManualRefusal::NameEmpty => own("Please provide an in-game name."),
            ManualRefusal::NameImplausible => own(
                "That doesn't look like a RotMG IGN — should be 1-12 letters, alphabetic only.",
            ),
            ManualRefusal::Bot => own("Bots can't be verified."),
        }
    }
}

/// Why somebody is not verified by hand, if at all. The outer `None` is a server
/// that is not known.
pub open spec fn manual_refusal(
    verified_role: Option<Option<i64>>,
    name: Seq<char>,
    is_bot: bool,
) -> Option<ManualRefusal> {
    if verified_role is None {
        Some(ManualRefusal::ServerUnknown)
    } else if verified_role->0 is None {
        Some(ManualRefusal::NoRole)
    } else if name.len() == 0 {
        Some(ManualRefusal::NameEmpty)
    } else if !all_letters(name) || bytes(name).len() > MANUAL_NAME_MAX {
        Some(ManualRefusal::NameImplausible)
    } else if is_bot {
        Some(ManualRefusal::Bot)
    } else {
        None
    }
}

/// Check whether somebody can be verified by hand: the role that they get and the
/// name that they are verified as, which is the given one without the white space
/// around it.
pub fn manual_verify_check(verified_role: Option<Option<i64>>, ign: &str, is_bot: bool) -> (r: Result<
    (i64, String),
    ManualRefusal,
>)
    ensures
        match r {
            Ok((role, name)) => manual_refusal(verified_role, trimmed(ign@), is_bot) is None
                && verified_role == Some(Some(role)) && name@ == trimmed(ign@),
            Err(e) => manual_refusal(verified_role, trimmed(ign@), is_bot) == Some(e),
        },
{
    let role: i64 = match verified_role {
        None => {
            return Err(ManualRefusal::ServerUnknown);
        },
        Some(None) => {
            return Err(ManualRefusal::NoRole);
        },
        Some(Some(r)) => r,
    };
    let name = trim(ign);
    if name.as_str().is_empty() {
        return Err(ManualRefusal::NameEmpty);
    }
    if !only_letters(&name) || name.as_str().as_bytes().len() > MANUAL_NAME_MAX {
        return Err(ManualRefusal::NameImplausible);
    }
    if is_bot {
        return Err(ManualRefusal::Bot);
    }
    Ok((role, name))
}

/// A name that is taken by hand has between 1 and 20 letters and nothing else.
pub proof fn manual_names_are_letters(
    verified_role: Option<Option<i64>>,
    name: Seq<char>,
    is_bot: bool,
)
    requires
        manual_refusal(verified_role, name, is_bot) is None,
    ensures
        0 < name.len() <= MANUAL_NAME_MAX,
        all_letters(name),
{
    assert(is_ascii_chars(name));
    is_ascii_chars_encode_utf8(name);
}

/// What the admin is told of somebody who was verified.
pub fn manual_reply(user_id: u64, summary: &str) -> (r: String)
    ensures
        r@ == "**"@ + user(user_id as int) + "**\n"@ + summary@,
{
    cat4("**", &user_u64(user_id), "**\n", summary)
}

/// Somebody is verified by hand exactly where the server has a role for it, the name is
/// one to twenty letters, and they are no bot.
pub proof fn people_with_names_are_verified_by_hand(
    verified_role: Option<Option<i64>>,
    name: Seq<char>,
    is_bot: bool,
)
    ensures
        manual_refusal(verified_role, name, is_bot) is None <==> verified_role is Some
            && verified_role->0 is Some && 0 < name.len() && bytes(name).len() <= 20 && (forall|
            i: int,
        |
            0 <= i < name.len() ==> ('A' <= #[trigger] name[i] <= 'Z' || 'a' <= name[i] <= 'z'))
            && !is_bot,
{
}

} // verus!
