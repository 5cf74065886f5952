//! The rows that the bridge writes to its database.

use crate::bridge::directus::{
    collection_names, list_query, relation_payload, schema, CollectionSpec, DirectusError, FieldKind,
    FieldSpec, Filter, Names, RelationSpec,
};
use crate::bridge::records::AccountStatus;
use crate::bridge::store::{
    account_name, account_session, account_status, confirmed, connected, conversation_closed,
    conversation_name, conversation_topic, forwarded_seq, inbound, new_account, new_conversation,
    new_user, opt_str, outbound,
};
use crate::json::{opt_doc, shows, Doc, Json};
use crate::numbers::{decimal, decimal_int};
use vstd::prelude::*;

verus! {

/// The member at a place of a row has this name and shows this value.
pub open spec fn holds(j: Json, i: int, name: Seq<char>, d: Doc) -> bool {
    j matches Json::Obj(o) && 0 <= i < o@.len() && o@[i].0@ == name && shows(o@[i].1, d)
}

/// What a member shows, by the kind of its value.
pub proof fn law_shown(j: Json, t: Seq<char>, n: int, b: bool)
    ensures
        shows(j, Doc::Text(t)) <==> (j matches Json::Str(s) && s@ == t),
        shows(j, Doc::Number(n)) <==> (j matches Json::Int(x) && x == n) || (j matches Json::Big(x) && x
            == n),
        shows(j, Doc::Flag(b)) <==> j == Json::Bool(b),
        shows(j, Doc::Null) <==> j == Json::Null,
        opt_doc(Some(t)) == Doc::Text(t),
        opt_doc(None) == Doc::Null,
{
}

/// A user on first contact is stored under the Telegram id, with no settings.
pub proof fn law_row_new_user(
    user: i64,
    name: Option<&str>,
    first: Option<&str>,
    now: &str,
    r: Json,
)
    requires
        call_ensures(new_user, (user, name, first, now), r),
    ensures
        holds(r, 0, "telegram_user_id"@, Doc::Text(decimal_int(user as int))),
        holds(r, 1, "telegram_username"@, opt_doc(opt_str(name))),
        holds(r, 2, "telegram_first_name"@, opt_doc(opt_str(first))),
        holds(r, 3, "settings"@, Doc::Record(seq![])),
        holds(r, 4, "created_at"@, Doc::Text(now@)),
        holds(r, 5, "updated_at"@, Doc::Text(now@)),
{
    reveal_with_fuel(shows, 2);
    assert(r is Obj);
}

/// An account that signed in again has its new device and session, and is connected.
pub proof fn law_row_connected(
    phone: Option<&str>,
    name: &str,
    device: &str,
    session: &str,
    now: &str,
    r: Json,
)
    requires
        call_ensures(connected, (phone, name, device, session, now), r),
    ensures
        holds(r, 0, "phone_e164"@, opt_doc(opt_str(phone))),
        holds(r, 1, "display_name"@, Doc::Text(name@)),
        holds(r, 2, "device_id"@, Doc::Text(device@)),
        holds(r, 3, "encrypted_session"@, Doc::Text(session@)),
        holds(r, 4, "status"@, Doc::Text("connected"@)),
        holds(r, 5, "connected_at"@, Doc::Text(now@)),
        holds(r, 6, "updated_at"@, Doc::Text(now@)),
{
    reveal_with_fuel(shows, 2);
    assert(r is Obj);
}

/// A new account belongs to its user and its identity, and is connected.
pub proof fn law_row_new_account(
    user: i64,
    identity: &str,
    phone: Option<&str>,
    name: &str,
    device: &str,
    session: &str,
    now: &str,
    r: Json,
)
    requires
        call_ensures(new_account, (user, identity, phone, name, device, session, now), r),
    ensures
        holds(r, 0, "phone_e164"@, opt_doc(opt_str(phone))),
        holds(r, 1, "display_name"@, Doc::Text(name@)),
        holds(r, 2, "device_id"@, Doc::Text(device@)),
        holds(r, 3, "encrypted_session"@, Doc::Text(session@)),
        holds(r, 4, "status"@, Doc::Text("connected"@)),
        holds(r, 7, "user"@, Doc::Number(user as int)),
        holds(r, 8, "tzibbur_user_id"@, Doc::Text(identity@)),
{
    reveal_with_fuel(shows, 2);
    assert(r is Obj);
}

/// A session that was wrapped anew replaces the old one.
pub proof fn law_row_account_session(
    sealed: &str,
    now: &str,
    r: Json,
)
    requires
        call_ensures(account_session, (sealed, now), r),
    ensures
        holds(r, 0, "encrypted_session"@, Doc::Text(sealed@)),
        holds(r, 1, "updated_at"@, Doc::Text(now@)),
{
    reveal_with_fuel(shows, 2);
    assert(r is Obj);
}

/// A new name of an account.
pub proof fn law_row_account_name(
    name: &str,
    now: &str,
    r: Json,
)
    requires
        call_ensures(account_name, (name, now), r),
    ensures
        holds(r, 0, "display_name"@, Doc::Text(name@)),
        holds(r, 1, "updated_at"@, Doc::Text(now@)),
{
    reveal_with_fuel(shows, 2);
    assert(r is Obj);
}

/// A group's conversation is stored with its account, its chat and topic, and its bookmark; it is open.
pub proof fn law_row_new_conversation(
    account: i64,
    group: &str,
    chat: i64,
    topic: Option<i32>,
    name: &str,
    kind: &str,
    seq: i64,
    now: &str,
    r: Json,
)
    requires
        call_ensures(new_conversation, (account, group, chat, topic, name, kind, seq, now), r),
    ensures
        holds(r, 0, "account"@, Doc::Number(account as int)),
        holds(r, 1, "group_id"@, Doc::Text(group@)),
        holds(r, 2, "telegram_chat_id"@, Doc::Text(decimal_int(chat as int))),
        holds(r, 3, "telegram_topic_id"@, opt_doc(match topic {
            Some(n) => Some(decimal_int(n as int)),
            None => None,
        })),
        holds(r, 4, "name"@, Doc::Text(name@)),
        holds(r, 5, "kind"@, Doc::Text(kind@)),
        holds(r, 6, "last_forwarded_seq"@, Doc::Number(seq as int)),
        holds(r, 7, "closed"@, Doc::Flag(false)),
{
    reveal_with_fuel(shows, 2);
    assert(r is Obj);
}

/// A conversation with a new topic is open.
pub proof fn law_row_conversation_topic(
    topic: Option<i32>,
    now: &str,
    r: Json,
)
    requires
        call_ensures(conversation_topic, (topic, now), r),
    ensures
        holds(r, 0, "telegram_topic_id"@, opt_doc(match topic {
            Some(n) => Some(decimal_int(n as int)),
            None => None,
        })),
        holds(r, 1, "closed"@, Doc::Flag(false)),
        holds(r, 2, "updated_at"@, Doc::Text(now@)),
{
    reveal_with_fuel(shows, 2);
    assert(r is Obj);
}

/// A new name of a conversation.
pub proof fn law_row_conversation_name(
    name: &str,
    now: &str,
    r: Json,
)
    requires
        call_ensures(conversation_name, (name, now), r),
    ensures
        holds(r, 0, "name"@, Doc::Text(name@)),
        holds(r, 1, "updated_at"@, Doc::Text(now@)),
{
    reveal_with_fuel(shows, 2);
    assert(r is Obj);
}

/// A conversation is closed or opened.
pub proof fn law_row_conversation_closed(
    closed: bool,
    now: &str,
    r: Json,
)
    requires
        call_ensures(conversation_closed, (closed, now), r),
    ensures
        holds(r, 0, "closed"@, Doc::Flag(closed)),
        holds(r, 1, "updated_at"@, Doc::Text(now@)),
{
    reveal_with_fuel(shows, 2);
    assert(r is Obj);
}

/// A new bookmark.
pub proof fn law_row_forwarded_seq(
    seq: i64,
    now: &str,
    r: Json,
)
    requires
        call_ensures(forwarded_seq, (seq, now), r),
    ensures
        holds(r, 0, "last_forwarded_seq"@, Doc::Number(seq as int)),
        holds(r, 1, "updated_at"@, Doc::Text(now@)),
{
    reveal_with_fuel(shows, 2);
    assert(r is Obj);
}

/// A message that went to Telegram is stored with both its ids, its place and its direction.
pub proof fn law_row_inbound(
    conv: i64,
    id: &str,
    seq: i64,
    telegram: i32,
    now: &str,
    r: Json,
)
    requires
        call_ensures(inbound, (conv, id, seq, telegram, now), r),
    ensures
        holds(r, 0, "conversation"@, Doc::Number(conv as int)),
        holds(r, 1, "tzibbur_message_id"@, Doc::Text(id@)),
        holds(r, 2, "seq"@, Doc::Number(seq as int)),
        holds(r, 3, "telegram_message_id"@, Doc::Text(decimal_int(telegram as int))),
        holds(r, 4, "direction"@, Doc::Text("in"@)),
        holds(r, 5, "created_at"@, Doc::Text(now@)),
{
    reveal_with_fuel(shows, 2);
    assert(r is Obj);
}

/// A message that came from Telegram is stored with its client id and its direction.
pub proof fn law_row_outbound(
    conv: i64,
    client: &str,
    telegram: i32,
    now: &str,
    r: Json,
)
    requires
        call_ensures(outbound, (conv, client, telegram, now), r),
    ensures
        holds(r, 0, "conversation"@, Doc::Number(conv as int)),
        holds(r, 1, "client_message_id"@, Doc::Text(client@)),
        holds(r, 2, "telegram_message_id"@, Doc::Text(decimal_int(telegram as int))),
        holds(r, 3, "direction"@, Doc::Text("out"@)),
        holds(r, 4, "created_at"@, Doc::Text(now@)),
{
    reveal_with_fuel(shows, 2);
    assert(r is Obj);
}

/// A confirmation names the message and its place.
pub proof fn law_row_confirmed(
    id: &str,
    seq: i64,
    r: Json,
)
    requires
        call_ensures(confirmed, (id, seq), r),
    ensures
        holds(r, 0, "tzibbur_message_id"@, Doc::Text(id@)),
        holds(r, 1, "seq"@, Doc::Number(seq as int)),
{
    reveal_with_fuel(shows, 2);
    assert(r is Obj);
}

/// A new status is stored under its word; the session is erased unless the account is connected.
pub proof fn law_row_status(status: AccountStatus, now: &str, r: Json)
    requires
        call_ensures(account_status, (status, now), r),
    ensures
        status == AccountStatus::Connected ==> holds(r, 0, "status"@, Doc::Text("connected"@)),
        status == AccountStatus::ReauthRequired ==> holds(
            r,
            0,
            "status"@,
            Doc::Text("reauth_required"@),
        ) && holds(r, 2, "encrypted_session"@, Doc::Null),
        status == AccountStatus::Disconnected ==> holds(r, 0, "status"@, Doc::Text("disconnected"@))
            && holds(r, 2, "encrypted_session"@, Doc::Null),
        status == AccountStatus::Connected ==> r->Obj_0@.len() == 2,
{
    reveal_with_fuel(shows, 2);
    assert(r is Obj);
}

/// A query holds its conditions, a limit and an order; without a limit it asks for everything.
pub proof fn law_query(filters: &Vec<Filter>, limit: Option<u32>, sort: Option<&str>, r: Vec<(String, String)>, i: int)
    requires
        call_ensures(list_query, (filters, limit, sort), r),
    ensures
        r@.len() == filters@.len() + 1 + (if sort is Some {
            1int
        } else {
            0int
        }),
        0 <= i < filters@.len() ==> r@[i].0@ == "filter["@ + filters@[i].field@ + "]["@
            + filters@[i].op@ + "]"@ && r@[i].1@ == filters@[i].value@,
        r@[filters@.len() as int].0@ == "limit"@,
        limit is None ==> r@[filters@.len() as int].1@ == "-1"@,
        limit matches Some(n) ==> r@[filters@.len() as int].1@ == decimal(n as nat),
        sort matches Some(s) ==> r@.last().0@ == "sort"@ && r@.last().1@ == s@,
{
    let t = crate::bridge::directus::param_texts(r@);
    assert(t.len() == r@.len());
    if 0 <= i < filters@.len() {
        assert(t[i] == (r@[i].0@, r@[i].1@));
    }
    let n = filters@.len() as int;
    assert(t[n] == (r@[n].0@, r@[n].1@));
    if sort is Some {
        assert(t[n + 1] == (r@[n + 1].0@, r@[n + 1].1@));
    }
}

/// A row that is missing or hidden counts as absent, and a refused token is told from an
/// unreachable server.
pub proof fn law_database_errors(e: &DirectusError, a: bool, b: bool)
    requires
        call_ensures(DirectusError::is_absent, (e,), a),
        call_ensures(DirectusError::fails_ping, (e,), b),
    ensures
        a <==> e.status == 403 || e.status == 404,
        b <==> e.status == 401,
{
}

/// The tables are made in the order in which they refer to each other: accounts to users,
/// conversations to accounts, messages to conversations.
pub proof fn law_schema(prefix: &str, r: Vec<CollectionSpec>, n: Names)
    requires
        call_ensures(schema, (prefix,), r),
        call_ensures(collection_names, (prefix,), n),
    ensures
        r@.len() == 4,
        r@[0].name@ == n.users@ && r@[0].relations@.len() == 0,
        r@[1].name@ == n.accounts@ && r@[1].relations@.len() == 1 && r@[1].relations@[0].related@
            == n.users@ && r@[1].relations@[0].field@ == "user"@,
        r@[2].name@ == n.conversations@ && r@[2].relations@.len() == 1
            && r@[2].relations@[0].related@ == n.accounts@ && r@[2].relations@[0].field@
            == "account"@,
        r@[3].name@ == n.messages@ && r@[3].relations@.len() == 1 && r@[3].relations@[0].related@
            == n.conversations@ && r@[3].relations@[0].field@ == "conversation"@,
        r@[0].fields@.len() == 6 && r@[1].fields@.len() == 10 && r@[2].fields@.len() == 10
            && r@[3].fields@.len() == 7,
        r@[0].fields@[0].name@ == "telegram_user_id"@ && r@[0].fields@[0].unique,
        r@[1].fields@[0].kind == FieldKind::Reference && r@[1].fields@[5].name@
            == "encrypted_session"@,
        r@[2].fields@[0].kind == FieldKind::Reference && r@[2].fields@[6].kind == FieldKind::BigInt
            && r@[2].fields@[7].kind == FieldKind::Boolean,
        r@[3].fields@[0].kind == FieldKind::Reference && r@[3].fields@[3].kind == FieldKind::BigInt,
{
}

/// A column is created under its name with the type of its kind.
pub proof fn law_column(f: &FieldSpec, r: Json)
    requires
        call_ensures(FieldSpec::to_json, (f,), r),
    ensures
        holds(r, 0, "field"@, Doc::Text(f.name@)),
        f.kind == FieldKind::Line ==> holds(r, 1, "type"@, Doc::Text("string"@)),
        f.kind == FieldKind::Text ==> holds(r, 1, "type"@, Doc::Text("text"@)),
        f.kind == FieldKind::BigInt ==> holds(r, 1, "type"@, Doc::Text("bigInteger"@)),
        f.kind == FieldKind::Boolean ==> holds(r, 1, "type"@, Doc::Text("boolean"@)),
        f.kind == FieldKind::Timestamp ==> holds(r, 1, "type"@, Doc::Text("timestamp"@)),
        f.kind == FieldKind::Data ==> holds(r, 1, "type"@, Doc::Text("json"@)),
        f.kind == FieldKind::Reference ==> holds(r, 1, "type"@, Doc::Text("integer"@)),
{
    reveal_with_fuel(shows, 2);
    assert(r is Obj);
}

/// A relation names both tables and the column between them.
pub proof fn law_relation(collection: &str, rel: &RelationSpec, r: Json)
    requires
        call_ensures(relation_payload, (collection, rel), r),
    ensures
        holds(r, 0, "collection"@, Doc::Text(collection@)),
        holds(r, 1, "field"@, Doc::Text(rel.field@)),
        holds(r, 2, "related_collection"@, Doc::Text(rel.related@)),
        holds(
            r,
            3,
            "schema"@,
            Doc::Record(seq![("on_delete"@, Doc::Text("CASCADE"@))]),
        ),
{
    reveal_with_fuel(shows, 2);
    assert(r is Obj);
}

} // verus!
