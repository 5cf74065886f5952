//! The rows of the bridge's database, and how leniently they are read: depending on the engine
//! behind it, numbers may come back as texts, flags as numbers, and references as whole rows.

use crate::json::{copy_json, get, i64_of, member_of, same_json, str_of, Json};
use crate::models::opt_text;
use crate::numbers::{parse_i32, parse_i64, parsed_i32, parsed_i64};
use crate::text::same;
use crate::wire::{
    field, found, has_slots, is_record, opt_text_in, read_opt_text, read_text, read_variant, slot,
    text_in, variant_in, Found, FoundJson, Wire,
};
use vstd::prelude::*;

verus! {

/// A whole number that may be written as a text; null is zero.
pub open spec fn lenient_i64(j: Json) -> Option<i64> {
    match j {
        Json::Int(n) => Some(n),
        Json::Str(s) => parsed_i64(s@),
        Json::Null => Some(0i64),
        _ => None,
    }
}

fn read_lenient_i64(j: &Json) -> (r: Option<i64>)
    ensures
        r == lenient_i64(*j),
{
    match j {
        Json::Int(n) => Some(*n),
        Json::Str(s) => parse_i64(s.as_str()),
        Json::Null => Some(0),
        _ => None,
    }
}

/// A required number.
pub open spec fn id_in(f: FoundJson) -> Option<i64> {
    match f {
        Ok(Some(j)) => lenient_i64(j),
        _ => None,
    }
}

fn read_id(f: Found<'_>) -> (r: Option<i64>)
    ensures
        r == id_in(found(f)),
{
    match f {
        Ok(Some(j)) => read_lenient_i64(j),
        _ => None,
    }
}

/// A number, zero when absent.
pub open spec fn count_in(f: FoundJson) -> Option<i64> {
    match f {
        Ok(Some(j)) => lenient_i64(j),
        Ok(None) => Some(0i64),
        Err(_) => None,
    }
}

fn read_count(f: Found<'_>) -> (r: Option<i64>)
    ensures
        r == count_in(found(f)),
{
    match f {
        Ok(Some(j)) => read_lenient_i64(j),
        Ok(None) => Some(0),
        Err(_) => None,
    }
}

/// An optional number; a text that is no number is an error.
pub open spec fn opt_count_in(f: FoundJson) -> Option<Option<i64>> {
    match f {
        Ok(Some(Json::Int(n))) => Some(Some(n)),
        Ok(Some(Json::Str(s))) => if s@.len() == 0 {
            Some(None)
        } else {
            match parsed_i64(s@) {
                Some(n) => Some(Some(n)),
                None => None,
            }
        },
        Ok(_) => Some(None),
        Err(_) => None,
    }
}

fn read_opt_count(f: Found<'_>) -> (r: Option<Option<i64>>)
    ensures
        r == opt_count_in(found(f)),
{
    match f {
        Ok(Some(Json::Int(n))) => Some(Some(*n)),
        Ok(Some(Json::Str(s))) => if s.as_str().is_empty() {
            Some(None)
        } else {
            match parse_i64(s.as_str()) {
                Some(n) => Some(Some(n)),
                None => None,
            }
        },
        Ok(_) => Some(None),
        Err(_) => None,
    }
}

/// A flag that may be written as a number or a text; false otherwise.
pub open spec fn flag_in(f: FoundJson) -> Option<bool> {
    match f {
        Ok(Some(Json::Bool(b))) => Some(b),
        Ok(Some(Json::Int(n))) => Some(n != 0),
        Ok(Some(Json::Str(s))) => Some(s@ == "1"@ || s@ == "true"@ || s@ == "TRUE"@),
        Ok(_) => Some(false),
        Err(_) => None,
    }
}

fn read_flag(f: Found<'_>) -> (r: Option<bool>)
    ensures
        r == flag_in(found(f)),
{
    match f {
        Ok(Some(Json::Bool(b))) => Some(*b),
        Ok(Some(Json::Int(n))) => Some(*n != 0),
        Ok(Some(Json::Str(s))) => Some(
            same(s.as_str(), "1") || same(s.as_str(), "true") || same(s.as_str(), "TRUE"),
        ),
        Ok(_) => Some(false),
        Err(_) => None,
    }
}

/// A reference: the id, or a row that holds it.
pub open spec fn reference_in(f: FoundJson) -> Option<i64> {
    match f {
        Ok(Some(Json::Int(n))) => Some(n),
        Ok(Some(Json::Str(s))) => parsed_i64(s@),
        Ok(Some(Json::Obj(o))) => match member_of(o@, "id"@) {
            Some(j) => i64_of(j),
            None => None,
        },
        _ => None,
    }
}

fn read_reference(f: Found<'_>) -> (r: Option<i64>)
    ensures
        r == reference_in(found(f)),
{
    match f {
        Ok(Some(Json::Int(n))) => Some(*n),
        Ok(Some(Json::Str(s))) => parse_i64(s.as_str()),
        Ok(Some(Json::Obj(o))) => match get(o, "id") {
            Some(Json::Int(n)) => Some(*n),
            _ => None,
        },
        _ => None,
    }
}

/// A Telegram user who has talked to the bot.
#[derive(Debug)]
pub struct BridgeUser {
    pub id: i64,
    pub telegram_user_id: String,
    pub telegram_username: Option<String>,
    pub telegram_first_name: Option<String>,
    /// Preferences, as members of an object; absent when there are none or they are no object.
    pub settings: Option<Vec<(String, Json)>>,
}

/// The members of the settings; none where they are no object.
pub open spec fn settings_of(f: FoundJson, s: Option<Vec<(String, Json)>>) -> bool {
    match f {
        Ok(Some(Json::Obj(o))) => s matches Some(v) && crate::ws::same_members(o@, v@),
        _ => s is None,
    }
}

fn read_settings_members(f: Found<'_>) -> (r: Option<Vec<(String, Json)>>)
    ensures
        settings_of(found(f), r),
{
    match f {
        Ok(Some(Json::Obj(o))) => Some(crate::http::copy_members(o)),
        _ => None,
    }
}

/// The value of a preference.
pub open spec fn preference(u: BridgeUser, key: Seq<char>) -> Option<Json> {
    match u.settings {
        Some(o) => member_of(o@, key),
        None => None,
    }
}

/// The topic in a preference: a number or a text.
pub open spec fn topic_in(j: Option<Json>) -> Option<i64> {
    match j {
        Some(Json::Int(n)) => Some(n),
        Some(Json::Str(s)) => parsed_i64(s@),
        _ => None,
    }
}

impl BridgeUser {
    fn preference_ref(&self, key: &str) -> (r: Option<&Json>)
        ensures
            r == (match preference(*self, key@) {
                Some(j) => Some(&j),
                None => None,
            }),
    {
        match &self.settings {
            Some(o) => get(o, key),
            None => None,
        }
    }

    /// The language the user chose, if any.
    pub fn lang(&self) -> (r: Option<String>)
        ensures
            opt_text(r) == (match preference(*self, "lang"@) {
                Some(j) => str_of(j),
                None => None,
            }),
    {
        match self.preference_ref("lang") {
            Some(Json::Str(s)) => Some(s.clone()),
            _ => None,
        }
    }

    /// The account that commands in the main thread use.
    pub fn active_account(&self) -> (r: Option<i64>)
        ensures
            r == (match preference(*self, "active_account"@) {
                Some(j) => i64_of(j),
                None => None,
            }),
    {
        match self.preference_ref("active_account") {
            Some(Json::Int(n)) => Some(*n),
            _ => None,
        }
    }

    /// The user's control topic, if it was created.
    pub fn home_topic_id(&self) -> (r: Option<i32>)
        ensures
            r == (match topic_in(preference(*self, "home_topic_id"@)) {
                Some(n) => Some(n as i32),
                None => None,
            }),
    {
        let n: Option<i64> = match self.preference_ref("home_topic_id") {
            Some(Json::Int(n)) => Some(*n),
            Some(Json::Str(s)) => parse_i64(s.as_str()),
            _ => None,
        };
        match n {
            Some(n) => Some(
                #[verifier::truncate]
                (n as i32),
            ),
            None => None,
        }
    }
}

impl Wire for BridgeUser {
    open spec fn decodes(j: Json, r: Option<Self>) -> bool {
        if is_record(j, 5) {
            let id = id_in(slot(j, 0, "id"@));
            let tid = text_in(slot(j, 1, "telegram_user_id"@));
            let name = opt_text_in(slot(j, 2, "telegram_username"@));
            let first = opt_text_in(slot(j, 3, "telegram_first_name"@));
            if id is Some && tid is Some && name is Some && first is Some {
                r matches Some(u) && u.id == id->0 && u.telegram_user_id@ == tid->0 && opt_text(
                    u.telegram_username,
                ) == name->0 && opt_text(u.telegram_first_name) == first->0 && settings_of(
                    slot(j, 4, "settings"@),
                    u.settings,
                )
            } else {
                r is None
            }
        } else {
            r is None
        }
    }

    fn from_json(j: &Json) -> (r: Option<Self>) {
        if !has_slots(j, 5) {
            return None;
        }
        match (
            read_id(field(j, 0, "id")),
            read_text(field(j, 1, "telegram_user_id")),
            read_opt_text(field(j, 2, "telegram_username")),
            read_opt_text(field(j, 3, "telegram_first_name")),
        ) {
            (Some(id), Some(telegram_user_id), Some(telegram_username), Some(telegram_first_name)) => Some(
                BridgeUser {
                    id,
                    telegram_user_id,
                    telegram_username,
                    telegram_first_name,
                    settings: read_settings_members(field(j, 4, "settings")),
                },
            ),
            _ => None,
        }
    }
}

/// Where a connected account stands.
#[derive(Debug, Clone, Copy, PartialEq, Eq, Structural)]
pub enum AccountStatus {
    Connected,
    ReauthRequired,
    Disconnected,
}

/// Stored name of a status.
pub open spec fn status_text(s: AccountStatus) -> Seq<char> {
    match s {
        AccountStatus::Connected => "connected"@,
        AccountStatus::ReauthRequired => "reauth_required"@,
        AccountStatus::Disconnected => "disconnected"@,
    }
}

/// The status with a stored name.
pub open spec fn status_of(s: Seq<char>) -> Option<AccountStatus> {
    if s == "connected"@ {
        Some(AccountStatus::Connected)
    } else if s == "reauth_required"@ {
        Some(AccountStatus::ReauthRequired)
    } else if s == "disconnected"@ {
        Some(AccountStatus::Disconnected)
    } else {
        None
    }
}

impl AccountStatus {
    pub fn as_str(self) -> (r: &'static str)
        ensures
            r@ == status_text(self),
    {
        match self {
            AccountStatus::Connected => "connected",
            AccountStatus::ReauthRequired => "reauth_required",
            AccountStatus::Disconnected => "disconnected",
        }
    }

    pub fn parse(s: &str) -> (r: Option<Self>)
        ensures
            r == status_of(s@),
    {
        if same(s, "connected") {
            Some(AccountStatus::Connected)
        } else if same(s, "reauth_required") {
            Some(AccountStatus::ReauthRequired)
        } else if same(s, "disconnected") {
            Some(AccountStatus::Disconnected)
        } else {
            None
        }
    }
}

/// A stored status reads back as the status it was stored for.
pub proof fn law_status_roundtrip(s: AccountStatus)
    ensures
        status_of(status_text(s)) == Some(s),
{
    reveal_strlit("connected");
    reveal_strlit("reauth_required");
    reveal_strlit("disconnected");
    assert("connected"@.len() == 9);
    assert("reauth_required"@.len() == 15);
    assert("disconnected"@.len() == 12);
}

/// Preferences of an account.
#[derive(Debug, Clone, Copy, PartialEq, Eq, Structural)]
pub struct AccountSettings {
    /// No longer shown: delivery is always acknowledged.
    pub auto_mark_read: bool,
    /// Create a topic for every new group.
    pub auto_topics: bool,
    /// Show a sender's phone number when no name is known.
    pub show_phone_numbers: bool,
}

/// The preferences of an account that has set none.
pub open spec fn default_settings() -> AccountSettings {
    AccountSettings { auto_mark_read: false, auto_topics: true, show_phone_numbers: true }
}

impl Default for AccountSettings {
    fn default() -> (r: Self)
        ensures
            r == default_settings(),
    {
        AccountSettings { auto_mark_read: false, auto_topics: true, show_phone_numbers: true }
    }
}

/// A flag of the preferences: its default when absent, an error when it is no flag.
pub open spec fn pref_in(o: Seq<(String, Json)>, name: Seq<char>, d: bool) -> Option<bool> {
    match member_of(o, name) {
        Some(Json::Bool(b)) => Some(b),
        Some(_) => None,
        None => Some(d),
    }
}

fn read_pref(o: &Vec<(String, Json)>, name: &str, d: bool) -> (r: Option<bool>)
    ensures
        r == pref_in(o@, name@, d),
{
    match get(o, name) {
        Some(Json::Bool(b)) => Some(*b),
        Some(_) => None,
        None => Some(d),
    }
}

/// The preferences in stored settings; the defaults where they cannot be read.
pub open spec fn settings_in_members(o: Option<Seq<(String, Json)>>) -> AccountSettings {
    match o {
        Some(o) => {
            let read = pref_in(o, "auto_mark_read"@, false);
            let topics = pref_in(o, "auto_topics"@, true);
            let phones = pref_in(o, "show_phone_numbers"@, true);
            if read is Some && topics is Some && phones is Some {
                AccountSettings {
                    auto_mark_read: read->0,
                    auto_topics: topics->0,
                    show_phone_numbers: phones->0,
                }
            } else {
                default_settings()
            }
        },
        None => default_settings(),
    }
}

/// The names of the preferences, in order.
pub open spec fn pref_names() -> Seq<&'static str> {
    seq!["auto_mark_read", "auto_topics", "show_phone_numbers"]
}

/// The members of an account's preferences: those of an object, or the elements of a list under the
/// names of the preferences; none of anything else.
pub open spec fn prefs_of(f: FoundJson, s: Option<Vec<(String, Json)>>) -> bool {
    match f {
        Ok(Some(Json::Arr(items))) => if items@.len() <= pref_names().len() {
            &&& s matches Some(v)
            &&& v@.len() == items@.len()
            &&& forall|i: int|
                0 <= i < v@.len() ==> (#[trigger] v@[i]).0@ == pref_names()[i]@ && same_json(
                    items@[i],
                    v@[i].1,
                )
        } else {
            s is None
        },
        _ => settings_of(f, s),
    }
}

fn read_prefs(f: Found<'_>) -> (r: Option<Vec<(String, Json)>>)
    ensures
        prefs_of(found(f), r),
{
    match f {
        Ok(Some(Json::Arr(items))) => {
            if items.len() > 3 {
                return None;
            }
            let names: [&'static str; 3] = ["auto_mark_read", "auto_topics", "show_phone_numbers"];
            assert(names@ =~= pref_names());
            let mut v: Vec<(String, Json)> = Vec::new();
            let mut i: usize = 0;
            while i < items.len()
                invariant
                    i <= items.len() <= 3,
                    names@ == pref_names(),
                    v@.len() == i,
                    forall|k: int|
                        0 <= k < i ==> (#[trigger] v@[k]).0@ == pref_names()[k]@ && same_json(
                            items@[k],
                            v@[k].1,
                        ),
                decreases items.len() - i,
            {
                v.push((names[i].to_owned(), copy_json(&items[i])));
                i += 1;
            }
            Some(v)
        },
        _ => read_settings_members(f),
    }
}

/// A connected Tzibbur account.
#[derive(Debug)]
pub struct Account {
    pub id: i64,
    pub user: i64,
    pub tzibbur_user_id: String,
    pub phone_e164: Option<String>,
    pub display_name: Option<String>,
    pub device_id: Option<String>,
    pub encrypted_session: Option<String>,
    pub status: AccountStatus,
    /// Preferences, as members of an object.
    pub settings: Option<Vec<(String, Json)>>,
}

impl Account {
    /// The preferences of the account.
    pub fn settings(&self) -> (r: AccountSettings)
        ensures
            r == settings_in_members(
                match self.settings {
                    Some(o) => Some(o@),
                    None => None,
                },
            ),
    {
        match &self.settings {
            Some(o) => match (
                read_pref(o, "auto_mark_read", false),
                read_pref(o, "auto_topics", true),
                read_pref(o, "show_phone_numbers", true),
            ) {
                (Some(auto_mark_read), Some(auto_topics), Some(show_phone_numbers)) => AccountSettings {
                    auto_mark_read,
                    auto_topics,
                    show_phone_numbers,
                },
                _ => AccountSettings::default(),
            },
            None => AccountSettings::default(),
        }
    }
}

impl Wire for Account {
    open spec fn decodes(j: Json, r: Option<Self>) -> bool {
        if is_record(j, 9) {
            let id = id_in(slot(j, 0, "id"@));
            let user = reference_in(slot(j, 1, "user"@));
            let tz = text_in(slot(j, 2, "tzibbur_user_id"@));
            let phone = opt_text_in(slot(j, 3, "phone_e164"@));
            let name = opt_text_in(slot(j, 4, "display_name"@));
            let device = opt_text_in(slot(j, 5, "device_id"@));
            let session = opt_text_in(slot(j, 6, "encrypted_session"@));
            let status = match variant_in(slot(j, 7, "status"@)) {
                Some(s) => status_of(s),
                None => None,
            };
            if id is Some && user is Some && tz is Some && phone is Some && name is Some
                && device is Some && session is Some && status is Some {
                r matches Some(a) && a.id == id->0 && a.user == user->0 && a.tzibbur_user_id@
                    == tz->0 && opt_text(a.phone_e164) == phone->0 && opt_text(a.display_name)
                    == name->0 && opt_text(a.device_id) == device->0 && opt_text(
                    a.encrypted_session,
                ) == session->0 && a.status == status->0 && prefs_of(
                    slot(j, 8, "settings"@),
                    a.settings,
                )
            } else {
                r is None
            }
        } else {
            r is None
        }
    }

    fn from_json(j: &Json) -> (r: Option<Self>) {
        if !has_slots(j, 9) {
            return None;
        }
        let status = match read_variant(field(j, 7, "status")) {
            Some(s) => AccountStatus::parse(s.as_str()),
            None => None,
        };
        match (
            read_id(field(j, 0, "id")),
            read_reference(field(j, 1, "user")),
            read_text(field(j, 2, "tzibbur_user_id")),
            read_opt_text(field(j, 3, "phone_e164")),
            read_opt_text(field(j, 4, "display_name")),
            read_opt_text(field(j, 5, "device_id")),
            read_opt_text(field(j, 6, "encrypted_session")),
            status,
        ) {
            (
                Some(id),
                Some(user),
                Some(tzibbur_user_id),
                Some(phone_e164),
                Some(display_name),
                Some(device_id),
                Some(encrypted_session),
                Some(status),
            ) => Some(
                Account {
                    id,
                    user,
                    tzibbur_user_id,
                    phone_e164,
                    display_name,
                    device_id,
                    encrypted_session,
                    status,
                    settings: read_prefs(field(j, 8, "settings")),
                },
            ),
            _ => None,
        }
    }
}

/// A group of an account and its topic.
#[derive(Debug)]
pub struct Conversation {
    pub id: i64,
    pub account: i64,
    pub group_id: String,
    pub telegram_chat_id: String,
    /// Absent when topics are unavailable; messages are then tagged with the group's name.
    pub telegram_topic_id: Option<String>,
    pub name: Option<String>,
    pub kind: Option<String>,
    pub last_forwarded_seq: i64,
    pub closed: bool,
}

/// The topic of a conversation.
pub open spec fn topic_of(c: Conversation) -> Option<i32> {
    match c.telegram_topic_id {
        Some(s) => parsed_i32(s@),
        None => None,
    }
}

/// The chat of a conversation; zero where it cannot be read.
pub open spec fn chat_of(c: Conversation) -> i64 {
    match parsed_i64(c.telegram_chat_id@) {
        Some(n) => n,
        None => 0,
    }
}

impl Conversation {
    pub fn topic_id(&self) -> (r: Option<i32>)
        ensures
            r == topic_of(*self),
    {
        match &self.telegram_topic_id {
            Some(s) => parse_i32(s.as_str()),
            None => None,
        }
    }

    pub fn chat_id(&self) -> (r: i64)
        ensures
            r == chat_of(*self),
    {
        match parse_i64(self.telegram_chat_id.as_str()) {
            Some(n) => n,
            None => 0,
        }
    }
}

impl Clone for Conversation {
    fn clone(&self) -> (r: Self)
        ensures
            r == *self,
    {
        Conversation {
            id: self.id,
            account: self.account,
            group_id: self.group_id.clone(),
            telegram_chat_id: self.telegram_chat_id.clone(),
            telegram_topic_id: self.telegram_topic_id.clone(),
            name: self.name.clone(),
            kind: self.kind.clone(),
            last_forwarded_seq: self.last_forwarded_seq,
            closed: self.closed,
        }
    }
}

impl Wire for Conversation {
    open spec fn decodes(j: Json, r: Option<Self>) -> bool {
        if is_record(j, 9) {
            let id = id_in(slot(j, 0, "id"@));
            let account = reference_in(slot(j, 1, "account"@));
            let group = text_in(slot(j, 2, "group_id"@));
            let chat = text_in(slot(j, 3, "telegram_chat_id"@));
            let topic = opt_text_in(slot(j, 4, "telegram_topic_id"@));
            let name = opt_text_in(slot(j, 5, "name"@));
            let kind = opt_text_in(slot(j, 6, "kind"@));
            let seq = count_in(slot(j, 7, "last_forwarded_seq"@));
            let closed = flag_in(slot(j, 8, "closed"@));
            if id is Some && account is Some && group is Some && chat is Some && topic is Some
                && name is Some && kind is Some && seq is Some && closed is Some {
                r matches Some(c) && c.id == id->0 && c.account == account->0 && c.group_id@
                    == group->0 && c.telegram_chat_id@ == chat->0 && opt_text(
                    c.telegram_topic_id,
                ) == topic->0 && opt_text(c.name) == name->0 && opt_text(c.kind) == kind->0
                    && c.last_forwarded_seq == seq->0 && c.closed == closed->0
            } else {
                r is None
            }
        } else {
            r is None
        }
    }

    fn from_json(j: &Json) -> (r: Option<Self>) {
        if !has_slots(j, 9) {
            return None;
        }
        match (
            read_id(field(j, 0, "id")),
            read_reference(field(j, 1, "account")),
            read_text(field(j, 2, "group_id")),
            read_text(field(j, 3, "telegram_chat_id")),
            read_opt_text(field(j, 4, "telegram_topic_id")),
            read_opt_text(field(j, 5, "name")),
            read_opt_text(field(j, 6, "kind")),
            read_count(field(j, 7, "last_forwarded_seq")),
            read_flag(field(j, 8, "closed")),
        ) {
            (
                Some(id),
                Some(account),
                Some(group_id),
                Some(telegram_chat_id),
                Some(telegram_topic_id),
                Some(name),
                Some(kind),
                Some(last_forwarded_seq),
                Some(closed),
            ) => Some(
                Conversation {
                    id,
                    account,
                    group_id,
                    telegram_chat_id,
                    telegram_topic_id,
                    name,
                    kind,
                    last_forwarded_seq,
                    closed,
                },
            ),
            _ => None,
        }
    }
}

/// Which way a message went.
#[derive(Debug, Clone, Copy, PartialEq, Eq, Structural)]
pub enum Direction {
    /// Tzibbur to Telegram.
    In,
    /// Telegram to Tzibbur.
    Out,
}

/// The direction with a stored name.
pub open spec fn direction_of(s: Seq<char>) -> Option<Direction> {
    if s == "in"@ {
        Some(Direction::In)
    } else if s == "out"@ {
        Some(Direction::Out)
    } else {
        None
    }
}

impl Direction {
    pub fn parse(s: &str) -> (r: Option<Self>)
        ensures
            r == direction_of(s@),
    {
        if same(s, "in") {
            Some(Direction::In)
        } else if same(s, "out") {
            Some(Direction::Out)
        } else {
            None
        }
    }
}

/// Which Telegram message stands for which Tzibbur message.
#[derive(Debug)]
pub struct MessageMap {
    pub id: i64,
    pub conversation: i64,
    pub tzibbur_message_id: Option<String>,
    pub client_message_id: Option<String>,
    pub seq: Option<i64>,
    pub telegram_message_id: Option<String>,
    pub direction: Direction,
}

impl Wire for MessageMap {
    open spec fn decodes(j: Json, r: Option<Self>) -> bool {
        if is_record(j, 7) {
            let id = id_in(slot(j, 0, "id"@));
            let conv = reference_in(slot(j, 1, "conversation"@));
            let tz = opt_text_in(slot(j, 2, "tzibbur_message_id"@));
            let client = opt_text_in(slot(j, 3, "client_message_id"@));
            let seq = opt_count_in(slot(j, 4, "seq"@));
            let tg = opt_text_in(slot(j, 5, "telegram_message_id"@));
            let dir = match variant_in(slot(j, 6, "direction"@)) {
                Some(s) => direction_of(s),
                None => None,
            };
            if id is Some && conv is Some && tz is Some && client is Some && seq is Some
                && tg is Some && dir is Some {
                r matches Some(m) && m.id == id->0 && m.conversation == conv->0 && opt_text(
                    m.tzibbur_message_id,
                ) == tz->0 && opt_text(m.client_message_id) == client->0 && m.seq == seq->0
                    && opt_text(m.telegram_message_id) == tg->0 && m.direction == dir->0
            } else {
                r is None
            }
        } else {
            r is None
        }
    }

    fn from_json(j: &Json) -> (r: Option<Self>) {
        if !has_slots(j, 7) {
            return None;
        }
        let dir = match read_variant(field(j, 6, "direction")) {
            Some(s) => Direction::parse(s.as_str()),
            None => None,
        };
        match (
            read_id(field(j, 0, "id")),
            read_reference(field(j, 1, "conversation")),
            read_opt_text(field(j, 2, "tzibbur_message_id")),
            read_opt_text(field(j, 3, "client_message_id")),
            read_opt_count(field(j, 4, "seq")),
            read_opt_text(field(j, 5, "telegram_message_id")),
            dir,
        ) {
            (
                Some(id),
                Some(conversation),
                Some(tzibbur_message_id),
                Some(client_message_id),
                Some(seq),
                Some(telegram_message_id),
                Some(direction),
            ) => Some(
                MessageMap {
                    id,
                    conversation,
                    tzibbur_message_id,
                    client_message_id,
                    seq,
                    telegram_message_id,
                    direction,
                },
            ),
            _ => None,
        }
    }
}

} // verus!
