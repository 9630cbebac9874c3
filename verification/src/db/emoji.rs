//! Application emojis: Discord's API for them, and how it answers.

use serde_json::Value;
use vstd::prelude::*;

use crate::config::id_value;
use crate::name_map::NameMap;
use crate::text::{cat2, cat3, cat4, cat6, dec, dec_u64, opt_view, own, parse_u64, str_views};

verus! {

/// The fields of a JSON object that are looked at: a text for each of the text
/// keys and a flag for each of the flag keys, where the object has them.
#[derive(Debug)]
pub struct Record {
    /// The texts.
    pub texts: Vec<Option<String>>,
    /// The flags.
    pub flags: Vec<Option<bool>>,
}

/// What such fields are.
pub ghost struct RecordView {
    pub texts: Seq<Option<Seq<char>>>,
    pub flags: Seq<Option<bool>>,
}

impl View for Record {
    type V = RecordView;

    open spec fn view(&self) -> RecordView {
        RecordView {
            texts: Seq::new(self.texts@.len(), |i: int| opt_view(self.texts@[i])),
            flags: self.flags@,
        }
    }
}

/// The views of a list of records.
pub open spec fn record_views(v: Seq<Record>) -> Seq<RecordView> {
    Seq::new(v.len(), |i: int| v[i]@)
}

/// The records of the list under a key of a JSON text: nothing where the text is not
/// JSON, and nothing in it where it has no such list.
pub uninterp spec fn json_list(
    body: Seq<char>,
    list: Seq<char>,
    text_keys: Seq<Seq<char>>,
    flag_keys: Seq<Seq<char>>,
) -> Option<Option<Seq<RecordView>>>;

/// The views of a list that may be missing, out of a text that may not be JSON.
pub open spec fn opt_records(r: Option<Option<Vec<Record>>>) -> Option<Option<Seq<RecordView>>> {
    match r {
        Some(Some(v)) => Some(Some(record_views(v@))),
        Some(None) => Some(None),
        None => None,
    }
}

/// `serde_json::from_str` into a `serde_json::Value`, then the objects of the
/// array under `list`, each by its text and flag fields, or that there is no such
/// array: what comes out depends on the text and the keys alone, and each record has
/// one entry for each key.
#[verifier::external_body]
pub(crate) fn read_json_list(
    body: &str,
    list: &str,
    text_keys: &[&str],
    flag_keys: &[&str],
) -> (r: Option<Option<Vec<Record>>>)
    ensures
        opt_records(r) == json_list(body@, list@, str_views(text_keys@), str_views(flag_keys@)),
        r matches Some(Some(v)) ==> forall|i: int|
            0 <= i < v@.len() ==> (#[trigger] v@[i]).texts@.len() == text_keys@.len()
                && v@[i].flags@.len() == flag_keys@.len(),
{
    let json: Value = serde_json::from_str(body).ok()?;
    let texts = |v: &Value| text_keys.iter().map(|k| v[*k].as_str().map(String::from)).collect();
    let flags = |v: &Value| flag_keys.iter().map(|k| v[*k].as_bool()).collect();
    Some(json[list].as_array().map(|items| {
        items.iter().map(|v| Record { texts: texts(v), flags: flags(v) }).collect()
    }))
}

/// The record of a JSON object; nothing where the text is not JSON.
pub uninterp spec fn json_object(
    body: Seq<char>,
    text_keys: Seq<Seq<char>>,
    flag_keys: Seq<Seq<char>>,
) -> Option<RecordView>;

/// `serde_json::from_str` into a `serde_json::Value`, by its text and flag
/// fields: what comes out depends on the text and the keys alone, and the record
/// has one entry for each key.
#[verifier::external_body]
pub(crate) fn read_json_object(body: &str, text_keys: &[&str], flag_keys: &[&str]) -> (r: Option<
    Record,
>)
    ensures
        r is Some == json_object(body@, str_views(text_keys@), str_views(flag_keys@)) is Some,
        r matches Some(v) ==> json_object(body@, str_views(text_keys@), str_views(flag_keys@))
            == Some(v@),
        r matches Some(v) ==> v.texts@.len() == text_keys@.len() && v.flags@.len()
            == flag_keys@.len(),
{
    let json: Value = serde_json::from_str(body).ok()?;
    let texts = text_keys.iter().map(|k| json[*k].as_str().map(String::from)).collect();
    let flags = flag_keys.iter().map(|k| json[*k].as_bool()).collect();
    Some(Record { texts, flags })
}

// ----- the registered emojis -----------------------------------------------------------

/// The id of a record, zero where it has none that is a number.
pub open spec fn record_id(r: RecordView) -> int {
    match r.texts[0] {
        Some(t) => match id_value(t) {
            Some(id) => id,
            None => 0,
        },
        None => 0,
    }
}

/// The name of a record.
pub open spec fn record_name(r: RecordView) -> Seq<char> {
    match r.texts[1] {
        Some(t) => t,
        None => ""@,
    }
}

/// Whether a record is of an animated emoji.
pub open spec fn record_animated(r: RecordView) -> bool {
    match r.flags[0] {
        Some(b) => b,
        None => false,
    }
}

/// The emojis of the first `n` records, by name: those with an id and a name; of
/// several with one name the last.
pub open spec fn emojis_of(records: Seq<RecordView>, n: int) -> Map<Seq<char>, (u64, bool)>
    decreases n,
{
    if n <= 0 {
        Map::empty()
    } else {
        let before = emojis_of(records, n - 1);
        let r = records[n - 1];
        if record_id(r) != 0 && record_name(r).len() > 0 {
            before.insert(record_name(r), (record_id(r) as u64, record_animated(r)))
        } else {
            before
        }
    }
}

/// The emojis that records name. The texts of a record are its id and its name,
/// its flag says whether the emoji is animated.
pub fn emojis_of_records(records: &Vec<Record>) -> (r: NameMap<(u64, bool)>)
    requires
        forall|i: int|
            0 <= i < records@.len() ==> (#[trigger] records@[i]).texts@.len() == 2
                && records@[i].flags@.len() == 1,
    ensures
        r@ == emojis_of(record_views(records@), records@.len() as int),
{
    let mut out: NameMap<(u64, bool)> = NameMap::new();
    let mut i: usize = 0;
    while i < records.len()
        invariant
            i <= records@.len(),
            forall|i: int|
                0 <= i < records@.len() ==> (#[trigger] records@[i]).texts@.len() == 2
                    && records@[i].flags@.len() == 1,
            out@ == emojis_of(record_views(records@), i as int),
        decreases records@.len() - i,
    {
        let rec = &records[i];
        let ghost rv = record_views(records@)[i as int];
        assert(rv == rec@);
        assert(rv.texts[0] == opt_view(rec.texts@[0]));
        assert(rv.texts[1] == opt_view(rec.texts@[1]));
        let id: u64 = match &rec.texts[0] {
            Some(t) => match parse_u64(t) {
                Some(v) => v,
                None => 0,
            },
            None => 0,
        };
        let name = match &rec.texts[1] {
            Some(t) => own(t),
            None => own(""),
        };
        let animated = match rec.flags[0] {
            Some(b) => b,
            None => false,
        };
        if id != 0 && !name.as_str().is_empty() {
            out.insert(&name, (id, animated));
        }
        i = i + 1;
    }
    out
}

/// The emojis that Discord's answer lists: none where it holds no list; nothing where
/// it is not JSON.
pub open spec fn listed_emojis(body: Seq<char>) -> Option<Map<Seq<char>, (u64, bool)>> {
    match json_list(body, "items"@, seq!["id"@, "name"@], seq!["animated"@]) {
        Some(Some(records)) => Some(emojis_of(records, records.len() as int)),
        Some(None) => Some(Map::empty()),
        None => None,
    }
}

/// Read the registered emojis off Discord's answer, by their name on Discord.
pub fn parse_emoji_list(body: &str) -> (r: Option<NameMap<(u64, bool)>>)
    ensures
        match r {
            Some(m) => listed_emojis(body@) == Some(m@),
            None => listed_emojis(body@) is None,
        },
{
    let texts: [&str; 2] = ["id", "name"];
    let flags: [&str; 1] = ["animated"];
    assert(str_views(texts@) =~= seq!["id"@, "name"@]);
    assert(str_views(flags@) =~= seq!["animated"@]);
    match read_json_list(body, "items", texts.as_slice(), flags.as_slice()) {
        Some(Some(records)) => Some(emojis_of_records(&records)),
        Some(None) => Some(NameMap::new()),
        None => None,
    }
}

/// What Discord's answer to an upload says.
#[derive(Debug, Clone, Copy, PartialEq, Eq, Structural)]
pub enum Created {
    /// The emoji's id, and whether it is animated.
    Emoji(u64, bool),
    /// The answer is not JSON.
    NotJson,
    /// The answer's id is not a text.
    IdNotText,
    /// The answer's id is not a number.
    IdNotNumber,
}

/// What a record says of a new emoji. The text of the record is its id, its flag
/// says whether the emoji is animated.
pub open spec fn created_of(r: RecordView) -> Created {
    match r.texts[0] {
        None => Created::IdNotText,
        Some(t) => match id_value(t) {
            None => Created::IdNotNumber,
            Some(id) => Created::Emoji(id as u64, record_animated(r)),
        },
    }
}

/// Read a new emoji off a record.
pub fn created_from_record(rec: &Record) -> (r: Created)
    requires
        rec.texts@.len() == 1,
        rec.flags@.len() == 1,
    ensures
        r == created_of(rec@),
{
    assert(rec@.texts[0] == opt_view(rec.texts@[0]));
    match &rec.texts[0] {
        None => Created::IdNotText,
        Some(t) => match parse_u64(t) {
            None => Created::IdNotNumber,
            Some(id) => Created::Emoji(
                id,
                match rec.flags[0] {
                    Some(b) => b,
                    None => false,
                },
            ),
        },
    }
}

/// What Discord's answer to an upload says.
pub open spec fn created_by(body: Seq<char>) -> Created {
    match json_object(body, seq!["id"@], seq!["animated"@]) {
        Some(r) => created_of(r),
        None => Created::NotJson,
    }
}

/// Read a new emoji off Discord's answer to an upload.
pub fn parse_created(body: &str) -> (r: Created)
    ensures
        r == created_by(body@),
{
    let texts: [&str; 1] = ["id"];
    let flags: [&str; 1] = ["animated"];
    assert(str_views(texts@) =~= seq!["id"@]);
    assert(str_views(flags@) =~= seq!["animated"@]);
    match read_json_object(body, texts.as_slice(), flags.as_slice()) {
        Some(rec) => created_from_record(&rec),
        None => Created::NotJson,
    }
}

// ----- the requests ------------------------------------------------------------------

/// An HTTP status of success.
pub open spec fn success(status: u16) -> bool {
    200 <= status < 300
}

/// What a status says of an upload.
#[derive(Debug, Clone, Copy, PartialEq, Eq, Structural)]
pub enum CreateStatus {
    /// Too many requests; try later.
    RateLimited,
    /// The upload was refused.
    Refused,
    /// The answer tells of the new emoji.
    Answered,
}

/// What the status of Discord's answer says of an upload.
pub fn create_status(status: u16) -> (r: CreateStatus)
    ensures
        r == (if status == 429 {
            CreateStatus::RateLimited
        } else if success(status) {
            CreateStatus::Answered
        } else {
            CreateStatus::Refused
        }),
{
    if status == 429 {
        CreateStatus::RateLimited
    } else if 200 <= status && status < 300 {
        CreateStatus::Answered
    } else {
        CreateStatus::Refused
    }
}

/// Whether an emoji is gone after a deletion: Discord deleted it, or does not
/// know it.
pub fn deletion_done(status: u16) -> (r: bool)
    ensures
        r == (success(status) || status == 404),
{
    (200 <= status && status < 300) || status == 404
}

/// Whether a listing was answered.
pub fn list_answered(status: u16) -> (r: bool)
    ensures
        r == success(status),
{
    200 <= status && status < 300
}

/// Who calls Discord's API for application emojis.
pub struct ApplicationEmojiClient {
    /// Token of the bot.
    pub token: String,
    /// Id of the application.
    pub app_id: u64,
}

impl ApplicationEmojiClient {
    /// A caller for an application.
    pub fn new(token: &str, app_id: u64) -> (r: Self)
        ensures
            r.token@ == token@,
            r.app_id == app_id,
    {
        ApplicationEmojiClient { token: own(token), app_id }
    }

    /// The address of the application's emojis.
    pub open spec fn url(&self) -> Seq<char> {
        "https://discord.com/api/v10/applications/"@ + dec(self.app_id as int) + "/emojis"@
    }

    /// The address of the application's emojis.
    pub fn base_url(&self) -> (r: String)
        ensures
            r@ == self.url(),
    {
        cat3("https://discord.com/api/v10/applications/", &dec_u64(self.app_id), "/emojis")
    }

    /// The address of one emoji.
    pub fn emoji_url(&self, emoji_id: u64) -> (r: String)
        ensures
            r@ == self.url() + "/"@ + dec(emoji_id as int),
    {
        cat3(&self.base_url(), "/", &dec_u64(emoji_id))
    }

    /// The header that the bot shows itself with.
    pub fn auth(&self) -> (r: String)
        ensures
            r@ == "Bot "@ + self.token@,
    {
        cat2("Bot ", &self.token)
    }
}

/// What is told of a listing that was not answered.
pub fn list_refused(status: &str, body: &str) -> (r: String)
    ensures
        r@ == "GET application emojis failed ("@ + status@ + "): "@ + body@,
{
    cat4("GET application emojis failed (", status, "): ", body)
}

/// What is told of an upload that was refused.
pub fn create_refused(status: &str, body: &str) -> (r: String)
    ensures
        r@ == "create application emoji failed ("@ + status@ + "): "@ + body@,
{
    cat4("create application emoji failed (", status, "): ", body)
}

/// What is told of a deletion that was refused.
pub fn delete_refused(emoji_id: u64, status: &str, body: &str) -> (r: String)
    ensures
        r@ == "delete application emoji "@ + dec(emoji_id as int) + " failed ("@ + status@ + "): "@
            + body@,
{
    cat6(
        "delete application emoji ",
        &dec_u64(emoji_id),
        " failed (",
        status,
        "): ",
        body,
    )
}

// ----- what Discord answers ----------------------------------------------------------------------

/// An emoji of the list counts where it has a name and a number that is not zero: it is
/// known by its name, with its number and whether it moves. Of several with one name the
/// last counts, and what does not count changes nothing.
pub proof fn named_emojis_are_known(records: Seq<RecordView>, n: int)
    requires
        0 <= n < records.len(),
    ensures
        emojis_of(records, 0) == Map::<Seq<char>, (u64, bool)>::empty(),
        ({
            let r = records[n];
            let before = emojis_of(records, n);
            let after = emojis_of(records, n + 1);
            let counts = r.texts[0] is Some && id_value(r.texts[0]->0) is Some && id_value(
                r.texts[0]->0,
            )->0 != 0 && r.texts[1] is Some && (r.texts[1]->0).len() > 0;
            &&& counts ==> after == before.insert(
                r.texts[1]->0,
                (id_value(r.texts[0]->0)->0 as u64, r.flags[0] == Some(true)),
            )
            &&& !counts ==> after == before
        }),
{
    reveal_strlit("");
}

/// The list of emojis is the `items` of the answer, each with `id`, `name` and
/// `animated`; an answer without such a list has none, and one that is no JSON is no
/// answer.
pub proof fn emojis_are_listed_under_items(body: Seq<char>)
    ensures
        ({
            let list = json_list(body, "items"@, seq!["id"@, "name"@], seq!["animated"@]);
            &&& list is None ==> listed_emojis(body) is None
            &&& list == Some(None::<Seq<RecordView>>) ==> listed_emojis(body) == Some(
                Map::<Seq<char>, (u64, bool)>::empty(),
            )
            &&& list matches Some(Some(records)) ==> listed_emojis(body) == Some(
                emojis_of(records, records.len() as int),
            )
        }),
{
}

/// A new emoji has the number and the kind that the answer says, under `id` and
/// `animated`; an answer without a number is told apart from one that is no JSON.
pub proof fn new_emojis_have_the_answered_number(body: Seq<char>)
    ensures
        ({
            let answer = json_object(body, seq!["id"@], seq!["animated"@]);
            &&& answer is None ==> created_by(body) is NotJson
            &&& answer matches Some(r) ==> r.texts[0] is None ==> created_by(body) is IdNotText
            &&& answer matches Some(r) ==> r.texts[0] matches Some(t) ==> id_value(t) is None
                ==> created_by(body) is IdNotNumber
            &&& answer matches Some(r) ==> r.texts[0] matches Some(t) ==> id_value(t) matches Some(
                id,
            ) ==> created_by(body) == Created::Emoji(id as u64, r.flags[0] == Some(true))
        }),
{
}

/// An answer counts as a success from two hundred on and below three hundred.
pub proof fn successes_are_told_by_their_hundreds(status: u16)
    ensures
        success(status) <==> status / 100 == 2,
{
}

} // verus!
