//! How messages mention channels, roles and users.

use vstd::prelude::*;

use crate::text::{cat3, dec, dec_i64, dec_u64, join, joined, own, views, views_push};

verus! {

/// A mention of a channel.
pub open spec fn channel(id: int) -> Seq<char> {
    "<#"@ + dec(id) + ">"@
}

/// A mention of a role.
pub open spec fn role(id: int) -> Seq<char> {
    "<@&"@ + dec(id) + ">"@
}

/// A mention of a user.
pub open spec fn user(id: int) -> Seq<char> {
    "<@"@ + dec(id) + ">"@
}

/// A mention of a channel.
pub fn channel_i64(id: i64) -> (r: String)
    ensures
        r@ == channel(id as int),
{
    cat3("<#", &dec_i64(id), ">")
}

/// A mention of a channel.
pub fn channel_u64(id: u64) -> (r: String)
    ensures
        r@ == channel(id as int),
{
    cat3("<#", &dec_u64(id), ">")
}

/// A mention of a role.
pub fn role_i64(id: i64) -> (r: String)
    ensures
        r@ == role(id as int),
{
    cat3("<@&", &dec_i64(id), ">")
}

/// A mention of a role.
pub fn role_u64(id: u64) -> (r: String)
    ensures
        r@ == role(id as int),
{
    cat3("<@&", &dec_u64(id), ">")
}

/// A mention of a user.
pub fn user_i64(id: i64) -> (r: String)
    ensures
        r@ == user(id as int),
{
    cat3("<@", &dec_i64(id), ">")
}

/// A mention of a user.
pub fn user_u64(id: u64) -> (r: String)
    ensures
        r@ == user(id as int),
{
    cat3("<@", &dec_u64(id), ">")
}

/// A mention of a channel, or another text where there is none.
pub open spec fn channel_or(id: Option<i64>, none: Seq<char>) -> Seq<char> {
    match id {
        Some(c) => channel(c as int),
        None => none,
    }
}

/// A mention of a channel, or another text where there is none.
pub fn opt_channel(id: Option<i64>, none: &str) -> (r: String)
    ensures
        r@ == channel_or(id, none@),
{
    match id {
        Some(c) => channel_i64(c),
        None => own(none),
    }
}

/// A mention of a user, or another text where there is none.
pub open spec fn user_or(id: Option<i64>, none: Seq<char>) -> Seq<char> {
    match id {
        Some(u) => user(u as int),
        None => none,
    }
}

/// A mention of a user, or another text where there is none.
pub fn opt_user(id: Option<i64>, none: &str) -> (r: String)
    ensures
        r@ == user_or(id, none@),
{
    match id {
        Some(u) => user_i64(u),
        None => own(none),
    }
}

/// Mentions of roles.
pub open spec fn role_mentions(ids: Seq<u64>) -> Seq<Seq<char>> {
    Seq::new(ids.len(), |i: int| role(ids[i] as int))
}

/// Mentions of roles with blanks between them, or another text where there are
/// none.
pub open spec fn roles_or(ids: Seq<u64>, none: Seq<char>) -> Seq<char> {
    if ids.len() == 0 {
        none
    } else {
        joined(role_mentions(ids), " "@)
    }
}

/// Mentions of roles with blanks between them, or another text where there are
/// none.
pub fn list_roles(ids: &Vec<u64>, none: &str) -> (r: String)
    ensures
        r@ == roles_or(ids@, none@),
{
    if ids.len() == 0 {
        return own(none);
    }
    let mut out: Vec<String> = Vec::new();
    let mut i: usize = 0;
    let ghost all = role_mentions(ids@);
    while i < ids.len()
        invariant
            i <= ids@.len(),
            all == role_mentions(ids@),
            views(out@) == all.take(i as int),
        decreases ids@.len() - i,
    {
        broadcast use views_push;

        out.push(role_u64(ids[i]));
        i = i + 1;
        assert(all.take(i as int) =~= all.take(i - 1).push(all[i - 1]));
    }
    assert(all.take(i as int) =~= all);
    join(&out, " ")
}

/// Channels, roles and users are mentioned each in their own way, by their id.
pub proof fn mentions_hold_the_id(id: int)
    ensures
        channel(id) == "<#"@ + dec(id) + ">"@,
        role(id) == "<@&"@ + dec(id) + ">"@,
        user(id) == "<@"@ + dec(id) + ">"@,
        forall|none: Seq<char>| #[trigger] channel_or(None, none) == none,
        forall|none: Seq<char>| #[trigger] user_or(None, none) == none,
        forall|c: i64, none: Seq<char>| #[trigger] channel_or(Some(c), none) == channel(c as int),
        forall|u: i64, none: Seq<char>| #[trigger] user_or(Some(u), none) == user(u as int),
{
}

} // verus!
