//! Whom a raid to a dungeon notifies: a role, and those who are online unless that is
//! switched off. A row is stored only where it says anything.

use vstd::prelude::*;

use crate::mention::{role, role_i64};
use crate::text::{cat2, dec, opt_view, own};

verus! {

/// Whom a raid to a dungeon notifies.
#[derive(Debug, Clone, Copy, PartialEq, Eq, Structural)]
pub struct NotificationSettings {
    /// The role.
    pub role_id: Option<i64>,
    /// Whether those who are online are notified too.
    pub ping_here: bool,
}

/// The settings of a dungeon of which no row is stored.
pub open spec fn default_settings() -> NotificationSettings {
    NotificationSettings { role_id: None, ping_here: true }
}

/// The settings of a dungeon, out of the row that is stored of it.
pub open spec fn settings_of(row: Option<NotificationSettings>) -> NotificationSettings {
    match row {
        Some(s) => s,
        None => default_settings(),
    }
}

/// The settings of a dungeon, out of the row that is stored of it.
pub fn get_notification_settings(row: Option<NotificationSettings>) -> (r: NotificationSettings)
    ensures
        r == settings_of(row),
{
    match row {
        Some(s) => s,
        None => NotificationSettings { role_id: None, ping_here: true },
    }
}

/// What stands above the message of a raid: a mention of the role, and of those who
/// are online.
pub open spec fn pings(s: NotificationSettings) -> Option<Seq<char>> {
    match (s.role_id, s.ping_here) {
        (Some(id), true) => Some(role(id as int) + " @here"@),
        (Some(id), false) => Some(role(id as int)),
        (None, true) => Some("@here"@),
        (None, false) => None,
    }
}

/// What stands above the message of a raid.
pub fn ping_text(s: NotificationSettings) -> (r: Option<String>)
    ensures
        opt_view(r) == pings(s),
{
    match s.role_id {
        Some(id) => if s.ping_here {
            Some(cat2(&role_i64(id), " @here"))
        } else {
            Some(role_i64(id))
        },
        None => if s.ping_here {
            Some(own("@here"))
        } else {
            None
        },
    }
}

/// The row that is stored of settings: none where they say nothing.
pub open spec fn row_of(s: NotificationSettings) -> Option<NotificationSettings> {
    if s == default_settings() {
        None
    } else {
        Some(s)
    }
}

fn row_for(s: NotificationSettings) -> (r: Option<NotificationSettings>)
    ensures
        r == row_of(s),
{
    if s.role_id.is_none() && s.ping_here {
        None
    } else {
        Some(s)
    }
}

/// The row that is stored after the role was set or cleared.
pub fn set_notification_role(row: Option<NotificationSettings>, role_id: Option<i64>) -> (r: Option<
    NotificationSettings,
>)
    ensures
        r == row_of(NotificationSettings { role_id, ..settings_of(row) }),
{
    let old = get_notification_settings(row);
    row_for(NotificationSettings { role_id, ping_here: old.ping_here })
}

/// The row that is stored after the notice to those online was switched on or off.
pub fn set_ping_here(row: Option<NotificationSettings>, ping_here: bool) -> (r: Option<
    NotificationSettings,
>)
    ensures
        r == row_of(NotificationSettings { ping_here, ..settings_of(row) }),
{
    let old = get_notification_settings(row);
    row_for(NotificationSettings { role_id: old.role_id, ping_here })
}

/// What was set is read back, and the other setting stays.
pub proof fn settings_are_read_back(
    row: Option<NotificationSettings>,
    role_id: Option<i64>,
    ping_here: bool,
)
    ensures
        settings_of(row_of(NotificationSettings { role_id, ..settings_of(row) })).role_id == role_id,
        settings_of(row_of(NotificationSettings { role_id, ..settings_of(row) })).ping_here
            == settings_of(row).ping_here,
        settings_of(row_of(NotificationSettings { ping_here, ..settings_of(row) })).ping_here
            == ping_here,
        settings_of(row_of(NotificationSettings { ping_here, ..settings_of(row) })).role_id
            == settings_of(row).role_id,
{
}

/// A raid pings the role where one is bound, and those who are online unless that is
/// switched off, which it is not at first.
pub proof fn raids_ping_role_and_online(role_id: i64)
    ensures
        settings_of(None).role_id is None && settings_of(None).ping_here,
        forall|s: NotificationSettings| #[trigger] settings_of(Some(s)) == s,
        pings(NotificationSettings { role_id: Some(role_id), ping_here: true }) == Some(
            "<@&"@ + dec(role_id as int) + ">"@ + " @here"@,
        ),
        pings(NotificationSettings { role_id: Some(role_id), ping_here: false }) == Some(
            "<@&"@ + dec(role_id as int) + ">"@,
        ),
        pings(NotificationSettings { role_id: None, ping_here: true }) == Some("@here"@),
        pings(NotificationSettings { role_id: None, ping_here: false }) is None,
        row_of(NotificationSettings { role_id: None, ping_here: true }) is None,
        row_of(NotificationSettings { role_id: Some(role_id), ping_here: true }) is Some,
        row_of(NotificationSettings { role_id: None, ping_here: false }) is Some,
{
}

} // verus!
