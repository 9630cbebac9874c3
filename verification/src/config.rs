//! The bot's configuration, out of environment variables.

use vstd::prelude::*;
use vstd::utf8::{encode_utf8_valid_utf8, is_char_boundary, is_char_boundary_start_end_of_seq};

use crate::cli::sync_wiki::sections::{bytes, cut, cut_text};
use crate::text::{
    cat3, cat4, dec, dec_u64, dec_usize, join, joined, nat_value, own, parse_u64, split_at_char,
    split_char, trim, trimmed, views, within, Text,
};

verus! {

/// The configuration.
#[derive(Clone)]
pub struct Config {
    /// Token of the bot.
    pub discord_token: String,
    /// Id of the bot's application.
    pub discord_application_id: u64,
    /// Id of the guild that commands are tried in.
    pub discord_test_guild_id: Option<u64>,
    /// Address of the database.
    pub database_url: String,
    /// How the wiki scraper names itself.
    pub realmeye_user_agent: String,
    /// Ids of the users who are told about errors. None are told where it is empty.
    pub error_dm_user_ids: Vec<u64>,
}

/// A variable that is missing or does not parse.
#[derive(Debug, Clone, Copy, PartialEq, Eq, Structural)]
pub enum ConfigError {
    /// `DISCORD_TOKEN` is not set.
    TokenMissing,
    /// `DISCORD_APPLICATION_ID` is not set.
    ApplicationIdMissing,
    /// `DISCORD_APPLICATION_ID` is not a number.
    ApplicationIdInvalid,
    /// `DISCORD_TEST_GUILD_ID` is not a number.
    TestGuildInvalid,
    /// `DATABASE_URL` is not set.
    DatabaseUrlMissing,
    /// `ERROR_DM_USER_IDS` is not a list of numbers.
    ErrorDmIdsInvalid,
}

impl ConfigError {
    /// What the operator is told.
    pub open spec fn text(self) -> Seq<char> {
        match self {
            ConfigError::TokenMissing => "DISCORD_TOKEN must be set"@,
            ConfigError::ApplicationIdMissing => "DISCORD_APPLICATION_ID must be set"@,
            ConfigError::ApplicationIdInvalid => "DISCORD_APPLICATION_ID must be a valid u64"@,
            ConfigError::TestGuildInvalid => "DISCORD_TEST_GUILD_ID must be a valid u64 if set"@,
            ConfigError::DatabaseUrlMissing => "DATABASE_URL must be set"@,
            ConfigError::ErrorDmIdsInvalid =>
                "ERROR_DM_USER_IDS must be a comma-separated list of u64 Discord IDs"@,
        }
    }

    /// What the operator is told.
    pub fn message(&self) -> (r: String)
        ensures
            r@ == self.text(),
    {
        match self {
            ConfigError::TokenMissing => own("DISCORD_TOKEN must be set"),
            ConfigError::ApplicationIdMissing => own("DISCORD_APPLICATION_ID must be set"),
            ConfigError::ApplicationIdInvalid => own("DISCORD_APPLICATION_ID must be a valid u64"),
            ConfigError::TestGuildInvalid => own("DISCORD_TEST_GUILD_ID must be a valid u64 if set"),
            ConfigError::DatabaseUrlMissing => own("DATABASE_URL must be set"),
            ConfigError::ErrorDmIdsInvalid => own(
                "ERROR_DM_USER_IDS must be a comma-separated list of u64 Discord IDs",
            ),
        }
    }
}

/// The environment variables that the configuration reads.
pub struct Vars {
    /// `DISCORD_TOKEN`.
    pub discord_token: Option<String>,
    /// `DISCORD_APPLICATION_ID`.
    pub discord_application_id: Option<String>,
    /// `DISCORD_TEST_GUILD_ID`.
    pub discord_test_guild_id: Option<String>,
    /// `DATABASE_URL`.
    pub database_url: Option<String>,
    /// `REALMEYE_USER_AGENT`.
    pub realmeye_user_agent: Option<String>,
    /// `ERROR_DM_USER_IDS`.
    pub error_dm_user_ids: Option<String>,
}

/// A number between 0 and `u64::MAX`, where the text writes one.
pub open spec fn id_value(s: Seq<char>) -> Option<int> {
    within(nat_value(s), 0, u64::MAX as int)
}

/// A variable that is not empty.
pub open spec fn filled_var(v: Option<String>) -> Option<Seq<char>> {
    match v {
        Some(s) => if s@.len() == 0 {
            None
        } else {
            Some(s@)
        },
        None => None,
    }
}

/// The ids that the first `n` entries of a list name: white space around an
/// entry is dropped and empty entries are skipped; `None` where one of the
/// others is not a number.
pub open spec fn listed_ids(entries: Seq<Seq<char>>, n: int) -> Option<Seq<int>>
    decreases n,
{
    if n <= 0 {
        Some(Seq::empty())
    } else {
        match listed_ids(entries, n - 1) {
            None => None,
            Some(before) => {
                let entry = trimmed(entries[n - 1]);
                if entry.len() == 0 {
                    Some(before)
                } else {
                    match id_value(entry) {
                        Some(id) => Some(before.push(id)),
                        None => None,
                    }
                }
            },
        }
    }
}

/// The ids of a comma-separated list.
pub open spec fn id_list(s: Seq<char>) -> Option<Seq<int>> {
    listed_ids(split_at_char(s, ','), split_at_char(s, ',').len() as int)
}

/// An entry of a list of ids is not a number.
#[derive(Debug)]
pub struct InvalidUserId {
    /// The first such entry.
    pub entry: String,
}

/// The first entry of a list that is neither empty nor a number.
pub open spec fn first_bad_id(entries: Seq<Seq<char>>, from: int) -> Option<Seq<char>>
    decreases entries.len() - from,
{
    if from < 0 || from >= entries.len() {
        None
    } else if trimmed(entries[from]).len() > 0 && id_value(trimmed(entries[from])) is None {
        Some(trimmed(entries[from]))
    } else {
        first_bad_id(entries, from + 1)
    }
}

proof fn bad_entry_spoils_the_list(entries: Seq<Seq<char>>, k: int, n: int)
    requires
        0 <= k <= n <= entries.len(),
        listed_ids(entries, k) is None,
    ensures
        listed_ids(entries, n) is None,
    decreases n,
{
    if k < n {
        bad_entry_spoils_the_list(entries, k, n - 1);
    }
}

/// Parse a comma-separated list of Discord user ids. White space around each
/// entry is tolerated and empty entries are skipped, so a trailing comma is
/// harmless. The first entry that is not a number is an error.
pub fn parse_user_id_list(s: String) -> (r: Result<Vec<u64>, InvalidUserId>)
    ensures
        r is Ok == id_list(s@) is Some,
        r matches Ok(ids) ==> id_list(s@) == Some(ids@.map_values(|i: u64| i as int)),
        r matches Err(e) ==> first_bad_id(split_at_char(s@, ','), 0) == Some(e.entry@),
{
    let entries = split_char(&s, ',');
    let ghost ev = views(entries@);
    let mut ids: Vec<u64> = Vec::new();
    let mut i: usize = 0;
    assert(ids@.map_values(|i: u64| i as int) =~= Seq::<int>::empty());
    while i < entries.len()
        invariant
            i <= entries@.len(),
            ev == views(entries@),
            ev == split_at_char(s@, ','),
            listed_ids(ev, i as int) == Some(ids@.map_values(|i: u64| i as int)),
            first_bad_id(ev, 0) == first_bad_id(ev, i as int),
        decreases entries@.len() - i,
    {
        assert(ev[i as int] == entries@[i as int]@);
        let entry = trim(&entries[i]);
        if !entry.as_str().is_empty() {
            match parse_u64(&entry) {
                Some(id) => {
                    let ghost before = ids@.map_values(|i: u64| i as int);
                    ids.push(id);
                    assert(ids@.map_values(|i: u64| i as int) =~= before.push(id as int));
                },
                None => {
                    proof {
                        bad_entry_spoils_the_list(ev, i + 1, ev.len() as int);
                    }
                    return Err(InvalidUserId { entry });
                },
            }
        }
        i = i + 1;
    }
    Ok(ids)
}

impl Config {
    /// Read the configuration off the environment variables. The first variable
    /// that is missing or does not parse is the error.
    pub fn from_vars(vars: Vars) -> (r: Result<Config, ConfigError>)
        ensures
            r is Ok <==> {
                &&& vars.discord_token is Some
                &&& vars.discord_application_id is Some
                &&& id_value(vars.discord_application_id->0@) is Some
                &&& filled_var(vars.discord_test_guild_id) matches Some(t) ==> id_value(t) is Some
                &&& vars.database_url is Some
                &&& filled_var(vars.error_dm_user_ids) matches Some(t) ==> id_list(t) is Some
            },
            r matches Ok(c) ==> {
                &&& c.discord_token@ == vars.discord_token->0@
                &&& id_value(vars.discord_application_id->0@) == Some(c.discord_application_id as int)
                &&& match filled_var(vars.discord_test_guild_id) {
                    Some(t) => c.discord_test_guild_id is Some && id_value(t) == Some(
                        c.discord_test_guild_id->0 as int,
                    ),
                    None => c.discord_test_guild_id is None,
                }
                &&& c.database_url@ == vars.database_url->0@
                &&& c.realmeye_user_agent@ == (match vars.realmeye_user_agent {
                    Some(a) => a@,
                    None => "starship-bot/0.1"@,
                })
                &&& match filled_var(vars.error_dm_user_ids) {
                    Some(t) => id_list(t) == Some(c.error_dm_user_ids@.map_values(|i: u64| i as int)),
                    None => c.error_dm_user_ids@.len() == 0,
                }
            },
            r matches Err(e) ==> e == (if vars.discord_token is None {
                ConfigError::TokenMissing
            } else if vars.discord_application_id is None {
                ConfigError::ApplicationIdMissing
            } else if id_value(vars.discord_application_id->0@) is None {
                ConfigError::ApplicationIdInvalid
            } else if filled_var(vars.discord_test_guild_id) is Some && id_value(
                filled_var(vars.discord_test_guild_id)->0,
            ) is None {
                ConfigError::TestGuildInvalid
            } else if vars.database_url is None {
                ConfigError::DatabaseUrlMissing
            } else {
                ConfigError::ErrorDmIdsInvalid
            }),
    {
        let discord_token = match vars.discord_token {
            Some(t) => t,
            None => {
                return Err(ConfigError::TokenMissing);
            },
        };
        let app_id = match vars.discord_application_id {
            Some(t) => t,
            None => {
                return Err(ConfigError::ApplicationIdMissing);
            },
        };
        let discord_application_id: u64 = match parse_u64(&app_id) {
            Some(id) => id,
            None => {
                return Err(ConfigError::ApplicationIdInvalid);
            },
        };
        let discord_test_guild_id = match vars.discord_test_guild_id {
            Some(t) => if t.as_str().is_empty() {
                None
            } else {
                match parse_u64(&t) {
                    Some(id) => Some(id),
                    None => {
                        return Err(ConfigError::TestGuildInvalid);
                    },
                }
            },
            None => None,
        };
        let database_url = match vars.database_url {
            Some(u) => u,
            None => {
                return Err(ConfigError::DatabaseUrlMissing);
            },
        };
        let realmeye_user_agent = match vars.realmeye_user_agent {
            Some(a) => a,
            None => own("starship-bot/0.1"),
        };
        let error_dm_user_ids = match vars.error_dm_user_ids {
            Some(t) => if t.as_str().is_empty() {
                Vec::new()
            } else {
                match parse_user_id_list(t) {
                    Ok(ids) => ids,
                    Err(_) => {
                        return Err(ConfigError::ErrorDmIdsInvalid);
                    },
                }
            },
            None => Vec::new(),
        };
        Ok(
            Config {
                discord_token,
                discord_application_id,
                discord_test_guild_id,
                database_url,
                realmeye_user_agent,
                error_dm_user_ids,
            },
        )
    }
}

/// How a secret is shown: its first four bytes and its length in bytes, or
/// nothing of it where it is no longer than that.
pub open spec fn masked(s: Seq<char>) -> Seq<char> {
    if bytes(s).len() <= 4 {
        "***"@
    } else {
        cut_text(bytes(s), 0, 4) + "…("@ + dec(bytes(s).len() as int) + ")"@
    }
}

/// Hide a secret.
pub fn mask(s: &str) -> (r: String)
    requires
        maskable(s@),
    ensures
        r@ == masked(s@),
{
    let n: usize = s.as_bytes().len();
    if n <= 4 {
        own("***")
    } else {
        proof {
            encode_utf8_valid_utf8(s@);
            is_char_boundary_start_end_of_seq(bytes(s@));
        }
        cat4(&cut(s, 0, 4), "…(", &dec_usize(n), ")")
    }
}

/// A text in double quotes, with what could be mistaken in it escaped, as the standard
/// library writes it for debugging.
pub uninterp spec fn debug_text(s: Seq<char>) -> Seq<char>;

/// `<str as Debug>::fmt`, as a `String`: the result depends on the text alone.
#[verifier::external_body]
pub(crate) fn quote(s: &str) -> (r: String)
    ensures
        r@ == debug_text(s@),
{
    format!("{s:?}")
}

/// A secret can be cut behind its fourth byte, where it is that long.
pub open spec fn maskable(s: Seq<char>) -> bool {
    bytes(s).len() > 4 ==> is_char_boundary(bytes(s), 4)
}

/// The ids of a list, as texts.
pub open spec fn id_texts(ids: Seq<u64>) -> Seq<Seq<char>> {
    Seq::new(ids.len(), |i: int| dec(ids[i] as int))
}

fn show_ids(ids: &Vec<u64>) -> (r: String)
    ensures
        r@ == joined(id_texts(ids@), ", "@),
{
    let mut texts: Vec<String> = Vec::new();
    let mut i: usize = 0;
    while i < ids.len()
        invariant
            i <= ids@.len(),
            texts@.len() == i,
            forall|k: int| 0 <= k < i ==> (#[trigger] texts@[k])@ == dec(ids@[k] as int),
        decreases ids@.len() - i,
    {
        texts.push(dec_u64(ids[i]));
        i = i + 1;
    }
    assert(views(texts@) =~= id_texts(ids@));
    join(&texts, ", ")
}

impl Config {
    /// The configuration as the log may show it: the token and the address of the
    /// database, which holds a password, are masked.
    pub open spec fn shown_text(self) -> Seq<char> {
        "Config { discord_token: "@ + debug_text(masked(self.discord_token@))
            + ", discord_application_id: "@ + dec(self.discord_application_id as int)
            + ", discord_test_guild_id: "@ + (match self.discord_test_guild_id {
            Some(id) => "Some("@ + dec(id as int) + ")"@,
            None => "None"@,
        }) + ", database_url: "@ + debug_text(masked(self.database_url@))
            + ", realmeye_user_agent: "@ + debug_text(self.realmeye_user_agent@)
            + ", error_dm_user_ids: ["@ + joined(id_texts(self.error_dm_user_ids@), ", "@) + "] }"@
    }

    /// The configuration as the log may show it.
    pub fn shown(&self) -> (r: String)
        requires
            maskable(self.discord_token@),
            maskable(self.database_url@),
        ensures
            r@ == self.shown_text(),
    {
        let guild = match self.discord_test_guild_id {
            Some(id) => cat3("Some(", &dec_u64(id), ")"),
            None => own("None"),
        };
        Text::new("Config { discord_token: ").add(&quote(&mask(&self.discord_token))).add(
            ", discord_application_id: ",
        ).add(&dec_u64(self.discord_application_id)).add(", discord_test_guild_id: ").add(
            &guild,
        ).add(", database_url: ").add(&quote(&mask(&self.database_url))).add(
            ", realmeye_user_agent: ",
        ).add(&quote(&self.realmeye_user_agent)).add(", error_dm_user_ids: [").add(
            &show_ids(&self.error_dm_user_ids),
        ).add("] }").done()
    }
}

/// What is shown of a configuration gives nothing away of its secrets but how they are
/// masked: two that differ in nothing else are shown alike.
pub proof fn configurations_hide_their_secrets(a: Config, b: Config)
    requires
        masked(a.discord_token@) == masked(b.discord_token@),
        masked(a.database_url@) == masked(b.database_url@),
        a.discord_application_id == b.discord_application_id,
        a.discord_test_guild_id == b.discord_test_guild_id,
        a.realmeye_user_agent@ == b.realmeye_user_agent@,
        a.error_dm_user_ids@ == b.error_dm_user_ids@,
    ensures
        a.shown_text() == b.shown_text(),
{
}

/// Two secrets of one length whose first four bytes agree are shown alike:
/// nothing else of a secret shows.
pub proof fn masks_show_four_bytes(a: Seq<char>, b: Seq<char>)
    requires
        bytes(a).len() == bytes(b).len(),
        bytes(a).len() > 4 ==> bytes(a).subrange(0, 4) == bytes(b).subrange(0, 4),
    ensures
        masked(a) == masked(b),
{
}

/// The entries of a list are read one after the other: an empty one is passed over, one
/// that is a number adds that number, and any other makes the list unreadable.
pub proof fn entries_add_their_number(entries: Seq<Seq<char>>, n: int)
    requires
        0 <= n < entries.len(),
    ensures
        listed_ids(entries, 0) == Some(Seq::<int>::empty()),
        ({
            let before = listed_ids(entries, n);
            let entry = trimmed(entries[n]);
            let number = nat_value(entry);
            let is_id = number is Some && number->0 <= u64::MAX && number->0 >= 0;
            &&& before is None ==> listed_ids(entries, n + 1) is None
            &&& before is Some && entry.len() == 0 ==> listed_ids(entries, n + 1) == before
            &&& before is Some && entry.len() > 0 && is_id ==> listed_ids(entries, n + 1) == Some(
                before->0.push(number->0),
            )
            &&& before is Some && entry.len() > 0 && !is_id ==> listed_ids(entries, n + 1) is None
        }),
{
}

/// A list is unreadable exactly where one of its entries, parted by commas, is neither
/// empty nor a number, and the first such entry is the one that is told.
pub proof fn the_first_bad_entry_is_told(entries: Seq<Seq<char>>, from: int) -> (i: int)
    requires
        0 <= from <= entries.len(),
    ensures
        from <= i <= entries.len(),
        i < entries.len() <==> first_bad_id(entries, from) is Some,
        i < entries.len() ==> first_bad_id(entries, from) == Some(trimmed(entries[i]))
            && trimmed(entries[i]).len() > 0 && id_value(trimmed(entries[i])) is None,
        forall|k: int|
            from <= k < i ==> trimmed(#[trigger] entries[k]).len() == 0 || id_value(
                trimmed(entries[k]),
            ) is Some,
    decreases entries.len() - from,
{
    if from >= entries.len() {
        from
    } else if trimmed(entries[from]).len() > 0 && id_value(trimmed(entries[from])) is None {
        from
    } else {
        the_first_bad_entry_is_told(entries, from + 1)
    }
}

/// A secret of more than four bytes shows those four and its length; a shorter one shows
/// nothing.
pub proof fn secrets_show_four_bytes_and_their_length(s: Seq<char>)
    ensures
        bytes(s).len() <= 4 ==> masked(s) == "***"@,
        bytes(s).len() > 4 ==> masked(s) == cut_text(bytes(s), 0, 4) + "…("@ + dec(
            bytes(s).len() as int,
        ) + ")"@,
{
}

/// A variable counts exactly where it is set to something, and then by its whole text.
pub proof fn empty_variables_do_not_count(s: String)
    ensures
        filled_var(None) is None,
        s@.len() == 0 ==> filled_var(Some(s)) is None,
        s@.len() > 0 ==> filled_var(Some(s)) == Some(s@),
{
}

} // verus!
