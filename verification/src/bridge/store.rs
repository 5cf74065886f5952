//! What the bridge writes to its database and how it looks things up.

use crate::bridge::directus::Filter;
use crate::bridge::records::{
    chat_of, default_settings, status_text, Account, AccountSettings, AccountStatus, BridgeUser,
    Conversation,
};
use crate::json::{
    member_pos, object, opt_doc, put, put_flag, put_number, put_opt_text, put_text, shows,
    shows_members, Doc, Json,
};
use crate::models::opt_text;
use crate::numbers::{decimal_int, show_i64};
use crate::text::same;
use vstd::prelude::*;

verus! {

/// An optional text as a model.
pub open spec fn opt_str(s: Option<&str>) -> Option<Seq<char>> {
    match s {
        Some(t) => Some(t@),
        None => None,
    }
}

/// Whether what is stored of a user's names differs from what Telegram says.
pub fn names_changed(u: &BridgeUser, username: Option<&str>, first_name: Option<&str>) -> (r: bool)
    ensures
        r == (opt_text(u.telegram_username) != opt_str(username) || opt_text(u.telegram_first_name)
            != opt_str(first_name)),
{
    !same_opt(&u.telegram_username, username) || !same_opt(&u.telegram_first_name, first_name)
}

fn same_opt(a: &Option<String>, b: Option<&str>) -> (r: bool)
    ensures
        r == (opt_text(*a) == opt_str(b)),
{
    match (a, b) {
        (Some(x), Some(y)) => same(x.as_str(), y),
        (None, None) => true,
        _ => false,
    }
}

/// The preferences of an account as a model.
pub open spec fn settings_doc(s: AccountSettings) -> Doc {
    Doc::Record(
        seq![
            ("auto_mark_read"@, Doc::Flag(s.auto_mark_read)),
            ("auto_topics"@, Doc::Flag(s.auto_topics)),
            ("show_phone_numbers"@, Doc::Flag(s.show_phone_numbers)),
        ],
    )
}

/// The preferences of an account as they are stored.
pub fn settings_json(s: &AccountSettings) -> (r: Json)
    ensures
        shows(r, settings_doc(*s)),
{
    let mut o: Vec<(String, Json)> = Vec::new();
    let ghost none: Seq<(Seq<char>, Doc)> = seq![];
    assert(shows_members(o@, none));
    put_flag(&mut o, "auto_mark_read", s.auto_mark_read);
    put_flag(&mut o, "auto_topics", s.auto_topics);
    put_flag(&mut o, "show_phone_numbers", s.show_phone_numbers);
    let ghost all = none
        .push(("auto_mark_read"@, Doc::Flag(s.auto_mark_read)))
        .push(("auto_topics"@, Doc::Flag(s.auto_topics)))
        .push(("show_phone_numbers"@, Doc::Flag(s.show_phone_numbers)));
    assert(shows_members(o@, all));
    assert(all =~= seq![
        ("auto_mark_read"@, Doc::Flag(s.auto_mark_read)),
        ("auto_topics"@, Doc::Flag(s.auto_topics)),
        ("show_phone_numbers"@, Doc::Flag(s.show_phone_numbers)),
    ]);
    object(o)
}

/// A user whose names changed.
pub fn user_names(username: Option<&str>, first_name: Option<&str>, now: &str) -> (r: Json)
    ensures
        shows(
            r,
            Doc::Record(
                seq![
                    ("telegram_username"@, opt_doc(opt_str(username))),
                    ("telegram_first_name"@, opt_doc(opt_str(first_name))),
                    ("updated_at"@, Doc::Text(now@)),
                ],
            ),
        ),
{
    let mut o: Vec<(String, Json)> = Vec::new();
    let ghost none: Seq<(Seq<char>, Doc)> = seq![];
    assert(shows_members(o@, none));
    put_opt_text(&mut o, "telegram_username", username);
    put_opt_text(&mut o, "telegram_first_name", first_name);
    put_text(&mut o, "updated_at", now);
    let ghost all = none
        .push(("telegram_username"@, opt_doc(opt_str(username))))
        .push(("telegram_first_name"@, opt_doc(opt_str(first_name))))
        .push(("updated_at"@, Doc::Text(now@)));
    assert(shows_members(o@, all));
    assert(all =~= seq![
        ("telegram_username"@, opt_doc(opt_str(username))),
        ("telegram_first_name"@, opt_doc(opt_str(first_name))),
        ("updated_at"@, Doc::Text(now@)),
    ]);
    object(o)
}

/// A user on first contact.
pub fn new_user(
    telegram_user_id: i64,
    username: Option<&str>,
    first_name: Option<&str>,
    now: &str,
) -> (r: Json)
    ensures
        shows(
            r,
            Doc::Record(
                seq![
                    ("telegram_user_id"@, Doc::Text(decimal_int(telegram_user_id as int))),
                    ("telegram_username"@, opt_doc(opt_str(username))),
                    ("telegram_first_name"@, opt_doc(opt_str(first_name))),
                    ("settings"@, Doc::Record(seq![])),
                    ("created_at"@, Doc::Text(now@)),
                    ("updated_at"@, Doc::Text(now@)),
                ],
            ),
        ),
{
    let mut o: Vec<(String, Json)> = Vec::new();
    let ghost none: Seq<(Seq<char>, Doc)> = seq![];
    assert(shows_members(o@, none));
    let empty: Vec<(String, Json)> = Vec::new();
    assert(shows_members(empty@, none));
    let blank = object(empty);
    assert(shows(blank, Doc::Record(none)));
    put_text(&mut o, "telegram_user_id", show_i64(telegram_user_id).as_str());
    put_opt_text(&mut o, "telegram_username", username);
    put_opt_text(&mut o, "telegram_first_name", first_name);
    put(&mut o, "settings", blank);
    put_text(&mut o, "created_at", now);
    put_text(&mut o, "updated_at", now);
    let ghost all = none
        .push(("telegram_user_id"@, Doc::Text(decimal_int(telegram_user_id as int))))
        .push(("telegram_username"@, opt_doc(opt_str(username))))
        .push(("telegram_first_name"@, opt_doc(opt_str(first_name))))
        .push(("settings"@, Doc::Record(none)))
        .push(("created_at"@, Doc::Text(now@)))
        .push(("updated_at"@, Doc::Text(now@)));
    assert(shows_members(o@, all));
    assert(none =~= Seq::<(Seq<char>, Doc)>::empty());
    assert(all =~= seq![
        ("telegram_user_id"@, Doc::Text(decimal_int(telegram_user_id as int))),
        ("telegram_username"@, opt_doc(opt_str(username))),
        ("telegram_first_name"@, opt_doc(opt_str(first_name))),
        ("settings"@, Doc::Record(seq![])),
        ("created_at"@, Doc::Text(now@)),
        ("updated_at"@, Doc::Text(now@)),
    ]);
    object(o)
}

/// A connected account: who it is, and its encrypted session.
pub fn connected(
    phone: Option<&str>,
    display_name: &str,
    device_id: &str,
    encrypted_session: &str,
    now: &str,
) -> (r: Json)
    ensures
        shows(
            r,
            Doc::Record(
                seq![
                    ("phone_e164"@, opt_doc(opt_str(phone))),
                    ("display_name"@, Doc::Text(display_name@)),
                    ("device_id"@, Doc::Text(device_id@)),
                    ("encrypted_session"@, Doc::Text(encrypted_session@)),
                    ("status"@, Doc::Text("connected"@)),
                    ("connected_at"@, Doc::Text(now@)),
                    ("updated_at"@, Doc::Text(now@)),
                ],
            ),
        ),
{
    let mut o: Vec<(String, Json)> = Vec::new();
    let ghost none: Seq<(Seq<char>, Doc)> = seq![];
    assert(shows_members(o@, none));
    put_opt_text(&mut o, "phone_e164", phone);
    put_text(&mut o, "display_name", display_name);
    put_text(&mut o, "device_id", device_id);
    put_text(&mut o, "encrypted_session", encrypted_session);
    put_text(&mut o, "status", "connected");
    put_text(&mut o, "connected_at", now);
    put_text(&mut o, "updated_at", now);
    let ghost all = none
        .push(("phone_e164"@, opt_doc(opt_str(phone))))
        .push(("display_name"@, Doc::Text(display_name@)))
        .push(("device_id"@, Doc::Text(device_id@)))
        .push(("encrypted_session"@, Doc::Text(encrypted_session@)))
        .push(("status"@, Doc::Text("connected"@)))
        .push(("connected_at"@, Doc::Text(now@)))
        .push(("updated_at"@, Doc::Text(now@)));
    assert(shows_members(o@, all));
    assert(all =~= seq![
        ("phone_e164"@, opt_doc(opt_str(phone))),
        ("display_name"@, Doc::Text(display_name@)),
        ("device_id"@, Doc::Text(device_id@)),
        ("encrypted_session"@, Doc::Text(encrypted_session@)),
        ("status"@, Doc::Text("connected"@)),
        ("connected_at"@, Doc::Text(now@)),
        ("updated_at"@, Doc::Text(now@)),
    ]);
    object(o)
}

/// An account that connects for the first time.
pub fn new_account(
    user_id: i64,
    tzibbur_user_id: &str,
    phone: Option<&str>,
    display_name: &str,
    device_id: &str,
    encrypted_session: &str,
    now: &str,
) -> (r: Json)
    ensures
        shows(
            r,
            Doc::Record(
                seq![
                    ("phone_e164"@, opt_doc(opt_str(phone))),
                    ("display_name"@, Doc::Text(display_name@)),
                    ("device_id"@, Doc::Text(device_id@)),
                    ("encrypted_session"@, Doc::Text(encrypted_session@)),
                    ("status"@, Doc::Text("connected"@)),
                    ("connected_at"@, Doc::Text(now@)),
                    ("updated_at"@, Doc::Text(now@)),
                    ("user"@, Doc::Number(user_id as int)),
                    ("tzibbur_user_id"@, Doc::Text(tzibbur_user_id@)),
                    ("settings"@, settings_doc(default_settings())),
                ],
            ),
        ),
{
    let mut o: Vec<(String, Json)> = Vec::new();
    let ghost none: Seq<(Seq<char>, Doc)> = seq![];
    assert(shows_members(o@, none));
    let prefs = settings_json(&AccountSettings::default());
    put_opt_text(&mut o, "phone_e164", phone);
    put_text(&mut o, "display_name", display_name);
    put_text(&mut o, "device_id", device_id);
    put_text(&mut o, "encrypted_session", encrypted_session);
    put_text(&mut o, "status", "connected");
    put_text(&mut o, "connected_at", now);
    put_text(&mut o, "updated_at", now);
    put_number(&mut o, "user", user_id);
    put_text(&mut o, "tzibbur_user_id", tzibbur_user_id);
    put(&mut o, "settings", prefs);
    let ghost all = none
        .push(("phone_e164"@, opt_doc(opt_str(phone))))
        .push(("display_name"@, Doc::Text(display_name@)))
        .push(("device_id"@, Doc::Text(device_id@)))
        .push(("encrypted_session"@, Doc::Text(encrypted_session@)))
        .push(("status"@, Doc::Text("connected"@)))
        .push(("connected_at"@, Doc::Text(now@)))
        .push(("updated_at"@, Doc::Text(now@)))
        .push(("user"@, Doc::Number(user_id as int)))
        .push(("tzibbur_user_id"@, Doc::Text(tzibbur_user_id@)))
        .push(("settings"@, settings_doc(default_settings())));
    assert(shows_members(o@, all));
    assert(all =~= seq![
        ("phone_e164"@, opt_doc(opt_str(phone))),
        ("display_name"@, Doc::Text(display_name@)),
        ("device_id"@, Doc::Text(device_id@)),
        ("encrypted_session"@, Doc::Text(encrypted_session@)),
        ("status"@, Doc::Text("connected"@)),
        ("connected_at"@, Doc::Text(now@)),
        ("updated_at"@, Doc::Text(now@)),
        ("user"@, Doc::Number(user_id as int)),
        ("tzibbur_user_id"@, Doc::Text(tzibbur_user_id@)),
        ("settings"@, settings_doc(default_settings())),
    ]);
    object(o)
}

/// New preferences of an account.
pub fn account_settings(settings: &AccountSettings, now: &str) -> (r: Json)
    ensures
        shows(
            r,
            Doc::Record(
                seq![
                    ("settings"@, settings_doc(*settings)),
                    ("updated_at"@, Doc::Text(now@)),
                ],
            ),
        ),
{
    let mut o: Vec<(String, Json)> = Vec::new();
    let ghost none: Seq<(Seq<char>, Doc)> = seq![];
    assert(shows_members(o@, none));
    let prefs = settings_json(settings);
    put(&mut o, "settings", prefs);
    put_text(&mut o, "updated_at", now);
    let ghost all = none
        .push(("settings"@, settings_doc(*settings)))
        .push(("updated_at"@, Doc::Text(now@)));
    assert(shows_members(o@, all));
    assert(all =~= seq![
        ("settings"@, settings_doc(*settings)),
        ("updated_at"@, Doc::Text(now@)),
    ]);
    object(o)
}

/// A new display name of an account.
pub fn account_name(name: &str, now: &str) -> (r: Json)
    ensures
        shows(
            r,
            Doc::Record(
                seq![
                    ("display_name"@, Doc::Text(name@)),
                    ("updated_at"@, Doc::Text(now@)),
                ],
            ),
        ),
{
    let mut o: Vec<(String, Json)> = Vec::new();
    let ghost none: Seq<(Seq<char>, Doc)> = seq![];
    assert(shows_members(o@, none));
    put_text(&mut o, "display_name", name);
    put_text(&mut o, "updated_at", now);
    let ghost all = none
        .push(("display_name"@, Doc::Text(name@)))
        .push(("updated_at"@, Doc::Text(now@)));
    assert(shows_members(o@, all));
    assert(all =~= seq![
        ("display_name"@, Doc::Text(name@)),
        ("updated_at"@, Doc::Text(now@)),
    ]);
    object(o)
}

/// A sealed session of an account, under another key.
pub fn account_session(sealed: &str, now: &str) -> (r: Json)
    ensures
        shows(
            r,
            Doc::Record(
                seq![
                    ("encrypted_session"@, Doc::Text(sealed@)),
                    ("updated_at"@, Doc::Text(now@)),
                ],
            ),
        ),
{
    let mut o: Vec<(String, Json)> = Vec::new();
    let ghost none: Seq<(Seq<char>, Doc)> = seq![];
    assert(shows_members(o@, none));
    put_text(&mut o, "encrypted_session", sealed);
    put_text(&mut o, "updated_at", now);
    let ghost all = none
        .push(("encrypted_session"@, Doc::Text(sealed@)))
        .push(("updated_at"@, Doc::Text(now@)));
    assert(shows_members(o@, all));
    assert(all =~= seq![
        ("encrypted_session"@, Doc::Text(sealed@)),
        ("updated_at"@, Doc::Text(now@)),
    ]);
    object(o)
}

/// A topic as it is stored.
pub open spec fn topic_text(t: Option<i32>) -> Option<Seq<char>> {
    match t {
        Some(n) => Some(decimal_int(n as int)),
        None => None,
    }
}

/// A group that got its topic.
pub fn new_conversation(
    account_id: i64,
    group_id: &str,
    telegram_chat_id: i64,
    topic_id: Option<i32>,
    name: &str,
    kind: &str,
    last_forwarded_seq: i64,
    now: &str,
) -> (r: Json)
    ensures
        shows(
            r,
            Doc::Record(
                seq![
                    ("account"@, Doc::Number(account_id as int)),
                    ("group_id"@, Doc::Text(group_id@)),
                    ("telegram_chat_id"@, Doc::Text(decimal_int(telegram_chat_id as int))),
                    ("telegram_topic_id"@, opt_doc(topic_text(topic_id))),
                    ("name"@, Doc::Text(name@)),
                    ("kind"@, Doc::Text(kind@)),
                    ("last_forwarded_seq"@, Doc::Number(last_forwarded_seq as int)),
                    ("closed"@, Doc::Flag(false)),
                    ("created_at"@, Doc::Text(now@)),
                    ("updated_at"@, Doc::Text(now@)),
                ],
            ),
        ),
{
    let shown: Option<String> = match topic_id {
        Some(n) => Some(show_i64(n as i64)),
        None => None,
    };
    let topic: Option<&str> = match &shown {
        Some(s) => Some(s.as_str()),
        None => None,
    };
    let mut o: Vec<(String, Json)> = Vec::new();
    let ghost none: Seq<(Seq<char>, Doc)> = seq![];
    assert(shows_members(o@, none));
    put_number(&mut o, "account", account_id);
    put_text(&mut o, "group_id", group_id);
    put_text(&mut o, "telegram_chat_id", show_i64(telegram_chat_id).as_str());
    put_opt_text(&mut o, "telegram_topic_id", topic);
    put_text(&mut o, "name", name);
    put_text(&mut o, "kind", kind);
    put_number(&mut o, "last_forwarded_seq", last_forwarded_seq);
    put_flag(&mut o, "closed", false);
    put_text(&mut o, "created_at", now);
    put_text(&mut o, "updated_at", now);
    let ghost all = none
        .push(("account"@, Doc::Number(account_id as int)))
        .push(("group_id"@, Doc::Text(group_id@)))
        .push(("telegram_chat_id"@, Doc::Text(decimal_int(telegram_chat_id as int))))
        .push(("telegram_topic_id"@, opt_doc(topic_text(topic_id))))
        .push(("name"@, Doc::Text(name@)))
        .push(("kind"@, Doc::Text(kind@)))
        .push(("last_forwarded_seq"@, Doc::Number(last_forwarded_seq as int)))
        .push(("closed"@, Doc::Flag(false)))
        .push(("created_at"@, Doc::Text(now@)))
        .push(("updated_at"@, Doc::Text(now@)));
    assert(shows_members(o@, all));
    assert(all =~= seq![
        ("account"@, Doc::Number(account_id as int)),
        ("group_id"@, Doc::Text(group_id@)),
        ("telegram_chat_id"@, Doc::Text(decimal_int(telegram_chat_id as int))),
        ("telegram_topic_id"@, opt_doc(topic_text(topic_id))),
        ("name"@, Doc::Text(name@)),
        ("kind"@, Doc::Text(kind@)),
        ("last_forwarded_seq"@, Doc::Number(last_forwarded_seq as int)),
        ("closed"@, Doc::Flag(false)),
        ("created_at"@, Doc::Text(now@)),
        ("updated_at"@, Doc::Text(now@)),
    ]);
    object(o)
}

/// A conversation that got another topic.
pub fn conversation_topic(topic_id: Option<i32>, now: &str) -> (r: Json)
    ensures
        shows(
            r,
            Doc::Record(
                seq![
                    ("telegram_topic_id"@, opt_doc(topic_text(topic_id))),
                    ("closed"@, Doc::Flag(false)),
                    ("updated_at"@, Doc::Text(now@)),
                ],
            ),
        ),
{
    let shown: Option<String> = match topic_id {
        Some(n) => Some(show_i64(n as i64)),
        None => None,
    };
    let topic: Option<&str> = match &shown {
        Some(s) => Some(s.as_str()),
        None => None,
    };
    let mut o: Vec<(String, Json)> = Vec::new();
    let ghost none: Seq<(Seq<char>, Doc)> = seq![];
    assert(shows_members(o@, none));
    put_opt_text(&mut o, "telegram_topic_id", topic);
    put_flag(&mut o, "closed", false);
    put_text(&mut o, "updated_at", now);
    let ghost all = none
        .push(("telegram_topic_id"@, opt_doc(topic_text(topic_id))))
        .push(("closed"@, Doc::Flag(false)))
        .push(("updated_at"@, Doc::Text(now@)));
    assert(shows_members(o@, all));
    assert(all =~= seq![
        ("telegram_topic_id"@, opt_doc(topic_text(topic_id))),
        ("closed"@, Doc::Flag(false)),
        ("updated_at"@, Doc::Text(now@)),
    ]);
    object(o)
}

/// A conversation that got another name.
pub fn conversation_name(name: &str, now: &str) -> (r: Json)
    ensures
        shows(
            r,
            Doc::Record(
                seq![
                    ("name"@, Doc::Text(name@)),
                    ("updated_at"@, Doc::Text(now@)),
                ],
            ),
        ),
{
    let mut o: Vec<(String, Json)> = Vec::new();
    let ghost none: Seq<(Seq<char>, Doc)> = seq![];
    assert(shows_members(o@, none));
    put_text(&mut o, "name", name);
    put_text(&mut o, "updated_at", now);
    let ghost all = none.push(("name"@, Doc::Text(name@))).push(("updated_at"@, Doc::Text(now@)));
    assert(shows_members(o@, all));
    assert(all =~= seq![
        ("name"@, Doc::Text(name@)),
        ("updated_at"@, Doc::Text(now@)),
    ]);
    object(o)
}

/// A conversation that was closed or opened.
pub fn conversation_closed(closed: bool, now: &str) -> (r: Json)
    ensures
        shows(
            r,
            Doc::Record(
                seq![
                    ("closed"@, Doc::Flag(closed)),
                    ("updated_at"@, Doc::Text(now@)),
                ],
            ),
        ),
{
    let mut o: Vec<(String, Json)> = Vec::new();
    let ghost none: Seq<(Seq<char>, Doc)> = seq![];
    assert(shows_members(o@, none));
    put_flag(&mut o, "closed", closed);
    put_text(&mut o, "updated_at", now);
    let ghost all = none
        .push(("closed"@, Doc::Flag(closed)))
        .push(("updated_at"@, Doc::Text(now@)));
    assert(shows_members(o@, all));
    assert(all =~= seq![
        ("closed"@, Doc::Flag(closed)),
        ("updated_at"@, Doc::Text(now@)),
    ]);
    object(o)
}

/// A conversation whose messages were forwarded up to a seq.
pub fn forwarded_seq(seq: i64, now: &str) -> (r: Json)
    ensures
        shows(
            r,
            Doc::Record(
                seq![
                    ("last_forwarded_seq"@, Doc::Number(seq as int)),
                    ("updated_at"@, Doc::Text(now@)),
                ],
            ),
        ),
{
    let mut o: Vec<(String, Json)> = Vec::new();
    let ghost none: Seq<(Seq<char>, Doc)> = seq![];
    assert(shows_members(o@, none));
    put_number(&mut o, "last_forwarded_seq", seq);
    put_text(&mut o, "updated_at", now);
    let ghost all = none
        .push(("last_forwarded_seq"@, Doc::Number(seq as int)))
        .push(("updated_at"@, Doc::Text(now@)));
    assert(shows_members(o@, all));
    assert(all =~= seq![
        ("last_forwarded_seq"@, Doc::Number(seq as int)),
        ("updated_at"@, Doc::Text(now@)),
    ]);
    object(o)
}

/// A message that was forwarded to Telegram.
pub fn inbound(
    conv_id: i64,
    tzibbur_message_id: &str,
    seq: i64,
    telegram_message_id: i32,
    now: &str,
) -> (r: Json)
    ensures
        shows(
            r,
            Doc::Record(
                seq![
                    ("conversation"@, Doc::Number(conv_id as int)),
                    ("tzibbur_message_id"@, Doc::Text(tzibbur_message_id@)),
                    ("seq"@, Doc::Number(seq as int)),
                    ("telegram_message_id"@, Doc::Text(decimal_int(telegram_message_id as int))),
                    ("direction"@, Doc::Text("in"@)),
                    ("created_at"@, Doc::Text(now@)),
                ],
            ),
        ),
{
    let mut o: Vec<(String, Json)> = Vec::new();
    let ghost none: Seq<(Seq<char>, Doc)> = seq![];
    assert(shows_members(o@, none));
    put_number(&mut o, "conversation", conv_id);
    put_text(&mut o, "tzibbur_message_id", tzibbur_message_id);
    put_number(&mut o, "seq", seq);
    put_text(&mut o, "telegram_message_id", show_i64(telegram_message_id as i64).as_str());
    put_text(&mut o, "direction", "in");
    put_text(&mut o, "created_at", now);
    let ghost all = none.push(("conversation"@, Doc::Number(conv_id as int))).push(("tzibbur_message_id"@, Doc::Text(tzibbur_message_id@))).push(("seq"@, Doc::Number(seq as int))).push(("telegram_message_id"@, Doc::Text(decimal_int(telegram_message_id as int)))).push(("direction"@, Doc::Text("in"@))).push(("created_at"@, Doc::Text(now@)));
    assert(shows_members(o@, all));
    assert(all =~= seq![
        ("conversation"@, Doc::Number(conv_id as int)),
        ("tzibbur_message_id"@, Doc::Text(tzibbur_message_id@)),
        ("seq"@, Doc::Number(seq as int)),
        ("telegram_message_id"@, Doc::Text(decimal_int(telegram_message_id as int))),
        ("direction"@, Doc::Text("in"@)),
        ("created_at"@, Doc::Text(now@)),
    ]);
    object(o)
}

/// A message that was taken from Telegram.
pub fn outbound(
    conv_id: i64,
    client_message_id: &str,
    telegram_message_id: i32,
    now: &str,
) -> (r: Json)
    ensures
        shows(
            r,
            Doc::Record(
                seq![
                    ("conversation"@, Doc::Number(conv_id as int)),
                    ("client_message_id"@, Doc::Text(client_message_id@)),
                    ("telegram_message_id"@, Doc::Text(decimal_int(telegram_message_id as int))),
                    ("direction"@, Doc::Text("out"@)),
                    ("created_at"@, Doc::Text(now@)),
                ],
            ),
        ),
{
    let mut o: Vec<(String, Json)> = Vec::new();
    let ghost none: Seq<(Seq<char>, Doc)> = seq![];
    assert(shows_members(o@, none));
    put_number(&mut o, "conversation", conv_id);
    put_text(&mut o, "client_message_id", client_message_id);
    put_text(&mut o, "telegram_message_id", show_i64(telegram_message_id as i64).as_str());
    put_text(&mut o, "direction", "out");
    put_text(&mut o, "created_at", now);
    let ghost all = none.push(("conversation"@, Doc::Number(conv_id as int))).push(("client_message_id"@, Doc::Text(client_message_id@))).push(("telegram_message_id"@, Doc::Text(decimal_int(telegram_message_id as int)))).push(("direction"@, Doc::Text("out"@))).push(("created_at"@, Doc::Text(now@)));
    assert(shows_members(o@, all));
    assert(all =~= seq![
        ("conversation"@, Doc::Number(conv_id as int)),
        ("client_message_id"@, Doc::Text(client_message_id@)),
        ("telegram_message_id"@, Doc::Text(decimal_int(telegram_message_id as int))),
        ("direction"@, Doc::Text("out"@)),
        ("created_at"@, Doc::Text(now@)),
    ]);
    object(o)
}

/// A message from Telegram that the server confirmed.
pub fn confirmed(tzibbur_message_id: &str, seq: i64) -> (r: Json)
    ensures
        shows(
            r,
            Doc::Record(
                seq![
                    ("tzibbur_message_id"@, Doc::Text(tzibbur_message_id@)),
                    ("seq"@, Doc::Number(seq as int)),
                ],
            ),
        ),
{
    let mut o: Vec<(String, Json)> = Vec::new();
    let ghost none: Seq<(Seq<char>, Doc)> = seq![];
    assert(shows_members(o@, none));
    put_text(&mut o, "tzibbur_message_id", tzibbur_message_id);
    put_number(&mut o, "seq", seq);
    let ghost all = none
        .push(("tzibbur_message_id"@, Doc::Text(tzibbur_message_id@)))
        .push(("seq"@, Doc::Number(seq as int)));
    assert(shows_members(o@, all));
    assert(all =~= seq![
        ("tzibbur_message_id"@, Doc::Text(tzibbur_message_id@)),
        ("seq"@, Doc::Number(seq as int)),
    ]);
    object(o)
}

/// A new status of an account: only a connected one keeps its session.
pub open spec fn status_doc(status: AccountStatus, now: Seq<char>) -> Seq<(Seq<char>, Doc)> {
    seq![("status"@, Doc::Text(status_text(status))), ("updated_at"@, Doc::Text(now))] + (if status
        != AccountStatus::Connected {
        seq![("encrypted_session"@, Doc::Null)]
    } else {
        seq![]
    })
}

/// A new status of an account; the session is erased unless it is connected.
pub fn account_status(status: AccountStatus, now: &str) -> (r: Json)
    ensures
        shows(r, Doc::Record(status_doc(status, now@))),
{
    let mut o: Vec<(String, Json)> = Vec::new();
    let ghost none: Seq<(Seq<char>, Doc)> = seq![];
    assert(shows_members(o@, none));
    put_text(&mut o, "status", status.as_str());
    put_text(&mut o, "updated_at", now);
    let ghost base = none.push(("status"@, Doc::Text(status_text(status)))).push(
        ("updated_at"@, Doc::Text(now@)),
    );
    assert(shows_members(o@, base));
    if status != AccountStatus::Connected {
        put_opt_text(&mut o, "encrypted_session", None);
        assert(shows_members(o@, base.push(("encrypted_session"@, Doc::Null))));
        assert(base.push(("encrypted_session"@, Doc::Null)) =~= status_doc(status, now@));
    } else {
        assert(base =~= status_doc(status, now@));
    }
    object(o)
}

/// Leaving the connected state erases the session.
pub proof fn law_session_is_erased(status: AccountStatus, now: Seq<char>)
    requires
        status != AccountStatus::Connected,
    ensures
        status_doc(status, now).contains(("encrypted_session"@, Doc::Null)),
{
    let d = status_doc(status, now);
    assert(d[2] == ("encrypted_session"@, Doc::Null));
}

/// What to write when messages were forwarded up to `seq`: nothing unless that is progress.
pub fn advance_forwarded_seq(conv: &Conversation, seq: i64, now: &str) -> (r: Option<Json>)
    ensures
        r is Some == (seq > conv.last_forwarded_seq),
        r matches Some(j) ==> shows(
            j,
            Doc::Record(
                seq![
                    ("last_forwarded_seq"@, Doc::Number(seq as int)),
                    ("updated_at"@, Doc::Text(now@)),
                ],
            ),
        ),
{
    if seq <= conv.last_forwarded_seq {
        None
    } else {
        Some(forwarded_seq(seq, now))
    }
}

/// Settings with one value replaced or added: `new` has the value under `key` and everything else
/// as before.
pub open spec fn with_setting(
    old_members: Seq<(String, Json)>,
    key: Seq<char>,
    value: Json,
    new: Seq<(String, Json)>,
) -> bool {
    let p = member_pos(old_members, key, 0);
    &&& new.len() == (if p < old_members.len() {
        old_members.len()
    } else {
        old_members.len() + 1
    })
    &&& 0 <= p < new.len()
    &&& new[p].0@ == key && new[p].1 == value
    &&& forall|i: int| 0 <= i < old_members.len() && i != p ==> #[trigger] new[i] == old_members[i]
}

/// Merge one value into a user's settings; settings that are missing start out empty.
pub fn set_setting(settings: Option<Vec<(String, Json)>>, key: &str, value: Json) -> (r: Vec<
    (String, Json),
>)
    ensures
        with_setting(
            match settings {
                Some(o) => o@,
                None => seq![],
            },
            key@,
            value,
            r@,
        ),
{
    let mut o: Vec<(String, Json)> = match settings {
        Some(o) => o,
        None => Vec::new(),
    };
    let ghost before = o@;
    assert(before =~= match settings {
        Some(o) => o@,
        None => seq![],
    });
    let mut i: usize = 0;
    while i < o.len()
        invariant
            i <= o.len(),
            o@ == before,
            before == (match settings {
                Some(o) => o@,
                None => seq![],
            }),
            member_pos(before, key@, 0) == member_pos(before, key@, i as int),
        decreases o.len() - i,
    {
        if same(o[i].0.as_str(), key) {
            o.set(i, (key.to_owned(), value));
            return o;
        }
        i += 1;
    }
    o.push((key.to_owned(), value));
    o
}

/// Settings as they are stored.
pub fn user_settings(settings: Vec<(String, Json)>, now: &str) -> (r: Json)
    ensures
        r matches Json::Obj(o) && o@.len() == 2 && o@[0].0@ == "settings"@ && o@[0].1 == Json::Obj(
            settings,
        ) && o@[1].0@ == "updated_at"@ && shows(o@[1].1, Doc::Text(now@)),
{
    let mut o: Vec<(String, Json)> = Vec::new();
    o.push(("settings".to_owned(), Json::Obj(settings)));
    o.push(("updated_at".to_owned(), Json::Str(now.to_owned())));
    Json::Obj(o)
}

/// The value of the control topic in a user's settings.
pub fn home_topic_value(topic_id: Option<i32>) -> (r: Json)
    ensures
        r == (match topic_id {
            Some(t) => Json::Int(t as i64),
            None => Json::Null,
        }),
{
    match topic_id {
        Some(t) => Json::Int(t as i64),
        None => Json::Null,
    }
}

/// The users that have a control topic.
pub open spec fn at_home(list: Seq<BridgeUser>) -> Seq<BridgeUser> {
    list.filter(|u: BridgeUser| has_home(u))
}

/// The user has a control topic.
pub open spec fn has_home(u: BridgeUser) -> bool {
    crate::bridge::records::topic_in(
        crate::bridge::records::preference(u, "home_topic_id"@),
    ) is Some
}

/// The users that have a control topic.
pub fn users_with_home_topic(list: Vec<BridgeUser>) -> (r: Vec<BridgeUser>)
    ensures
        r@ == at_home(list@),
{
    let ghost all = list@;
    let mut rest = list;
    let mut out: Vec<BridgeUser> = Vec::new();
    let ghost mut n: int = 0;
    assert(all.take(0).filter(|u: BridgeUser| has_home(u)) =~= Seq::empty()) by {
        reveal(Seq::filter);
    }
    while rest.len() > 0
        invariant
            0 <= n <= all.len(),
            rest@ =~= all.skip(n),
            out@ == at_home(all.take(n)),
        decreases rest.len(),
    {
        let u = rest.remove(0);
        proof {
            assert(all.take(n + 1).drop_last() =~= all.take(n));
            assert(all.take(n + 1).last() == u);
            reveal(Seq::filter);
        }
        if u.home_topic_id().is_some() {
            out.push(u);
        }
        proof {
            n = n + 1;
        }
    }
    assert(all.take(n) =~= all);
    out
}

/// How much a status is preferred: connected, then waiting for a new sign-in, then disconnected.
pub open spec fn rank(s: AccountStatus) -> int {
    match s {
        AccountStatus::Connected => 0,
        AccountStatus::ReauthRequired => 1,
        AccountStatus::Disconnected => 2,
    }
}

fn rank_of(s: AccountStatus) -> (r: u8)
    ensures
        r == rank(s),
{
    match s {
        AccountStatus::Connected => 0,
        AccountStatus::ReauthRequired => 1,
        AccountStatus::Disconnected => 2,
    }
}

/// The account to use among those of a user, newest first: the first of the best status.
pub fn account_for_user(list: Vec<Account>) -> (r: Option<Account>)
    ensures
        match r {
            Some(a) => exists|i: int|
                {
                    &&& 0 <= i < list@.len()
                    &&& #[trigger] list@[i] == a
                    &&& forall|k: int|
                        0 <= k < list@.len() ==> rank(a.status) <= rank(
                            (#[trigger] list@[k]).status,
                        )
                    &&& forall|k: int|
                        0 <= k < i ==> rank((#[trigger] list@[k]).status) > rank(a.status)
                },
            None => list@.len() == 0,
        },
{
    let mut list = list;
    let ghost all = list@;
    if list.len() == 0 {
        return None;
    }
    let mut best: usize = 0;
    let mut i: usize = 1;
    while i < list.len()
        invariant
            1 <= i <= list.len(),
            best < i,
            list@ == all,
            forall|k: int| 0 <= k < i ==> rank(all[best as int].status) <= rank(
                (#[trigger] all[k]).status,
            ),
            forall|k: int|
                0 <= k < best ==> rank((#[trigger] all[k]).status) > rank(all[best as int].status),
        decreases list.len() - i,
    {
        if rank_of(list[i].status) < rank_of(list[best].status) {
            best = i;
        }
        i += 1;
    }
    let a = list.remove(best);
    assert(all[best as int] == a);
    Some(a)
}

/// Only the connected ones of a list of accounts.
pub open spec fn connected_of(list: Seq<Account>) -> Seq<Account> {
    list.filter(|a: Account| a.status == AccountStatus::Connected)
}

/// The connected accounts of a user, in order.
pub fn accounts_for_user(list: Vec<Account>) -> (r: Vec<Account>)
    ensures
        r@ == connected_of(list@),
{
    let ghost all = list@;
    let mut rest = list;
    let mut out: Vec<Account> = Vec::new();
    let ghost mut n: int = 0;
    assert(
        all.take(0).filter(|a: Account| a.status == AccountStatus::Connected) =~= Seq::empty()
    ) by {
        reveal(Seq::filter);
    }
    while rest.len() > 0
        invariant
            0 <= n <= all.len(),
            rest@ =~= all.skip(n),
            out@ == connected_of(all.take(n)),
        decreases rest.len(),
    {
        let a = rest.remove(0);
        proof {
            assert(all.take(n + 1).drop_last() =~= all.take(n));
            assert(all.take(n + 1).last() == a);
            reveal(Seq::filter);
        }
        if a.status == AccountStatus::Connected {
            out.push(a);
        }
        proof {
            n = n + 1;
        }
    }
    assert(all.take(n) =~= all);
    out
}

/// A condition that a field equals a value.
pub open spec fn wants(f: Filter, field: Seq<char>, value: Seq<char>) -> bool {
    f.field@ == field && f.op@ == "_eq"@ && f.value@ == value
}

/// The conversation of a topic: by chat and topic together, never by the topic alone.
pub fn by_topic(telegram_chat_id: i64, topic_id: i32) -> (r: Vec<Filter>)
    ensures
        r@.len() == 2,
        wants(r@[0], "telegram_chat_id"@, decimal_int(telegram_chat_id as int)),
        wants(r@[1], "telegram_topic_id"@, decimal_int(topic_id as int)),
{
    let mut v: Vec<Filter> = Vec::new();
    v.push(Filter::eq_number("telegram_chat_id", telegram_chat_id));
    v.push(Filter::eq_number("telegram_topic_id", topic_id as i64));
    v
}

/// The conversation of a group: by account and group together.
pub fn by_group(account_id: i64, group_id: &str) -> (r: Vec<Filter>)
    ensures
        r@.len() == 2,
        wants(r@[0], "account"@, decimal_int(account_id as int)),
        wants(r@[1], "group_id"@, group_id@),
{
    let mut v: Vec<Filter> = Vec::new();
    v.push(Filter::eq_number("account", account_id));
    v.push(Filter::eq("group_id", group_id));
    v
}

/// The account of a user for a Tzibbur identity.
pub fn by_identity(user_id: i64, tzibbur_user_id: &str) -> (r: Vec<Filter>)
    ensures
        r@.len() == 2,
        wants(r@[0], "user"@, decimal_int(user_id as int)),
        wants(r@[1], "tzibbur_user_id"@, tzibbur_user_id@),
{
    let mut v: Vec<Filter> = Vec::new();
    v.push(Filter::eq_number("user", user_id));
    v.push(Filter::eq("tzibbur_user_id", tzibbur_user_id));
    v
}

/// The mapping of a Tzibbur message within a conversation.
pub fn by_message(conv_id: i64, tzibbur_message_id: &str) -> (r: Vec<Filter>)
    ensures
        r@.len() == 2,
        wants(r@[0], "conversation"@, decimal_int(conv_id as int)),
        wants(r@[1], "tzibbur_message_id"@, tzibbur_message_id@),
{
    let mut v: Vec<Filter> = Vec::new();
    v.push(Filter::eq_number("conversation", conv_id));
    v.push(Filter::eq("tzibbur_message_id", tzibbur_message_id));
    v
}

/// A lookup by one field that holds a number.
pub fn by_number(field: &str, value: i64) -> (r: Vec<Filter>)
    ensures
        r@.len() == 1,
        wants(r@[0], field@, decimal_int(value as int)),
{
    let mut v: Vec<Filter> = Vec::new();
    v.push(Filter::eq_number(field, value));
    v
}

/// A lookup by one field that holds a text.
pub fn by_text(field: &str, value: &str) -> (r: Vec<Filter>)
    ensures
        r@.len() == 1,
        wants(r@[0], field@, value@),
{
    let mut v: Vec<Filter> = Vec::new();
    v.push(Filter::eq(field, value));
    v
}

/// Whether a conversation found through a message belongs to the chat the message stands in.
pub fn in_chat(c: &Conversation, telegram_chat_id: i64) -> (r: bool)
    ensures
        r == (chat_of(*c) == telegram_chat_id),
{
    c.chat_id() == telegram_chat_id
}

} // verus!
