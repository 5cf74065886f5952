//! The bridge's own rows: how they are read and which are chosen.

use crate::bridge::directus::Filter;
use crate::bridge::records::{
    Account, AccountSettings, AccountStatus, BridgeUser, Conversation, Direction, MessageMap,
};
use crate::bridge::store::{
    account_for_user, accounts_for_user, advance_forwarded_seq, by_group, by_identity, by_message,
    by_topic, home_topic_value, in_chat, names_changed, rank, set_setting,
};
use crate::json::{member_of, shows, Doc, Json};
use crate::laws::common::{lemma_filter_from, lemma_filter_has};
use crate::laws::replies::{counts, lacks, says};
use crate::laws::requests::law_member_found;
use crate::numbers::{decimal_int, parsed_i32, parsed_i64};
use crate::wire::Wire;
use vstd::prelude::*;

verus! {

/// A conversation's row is read field by field; what may be missing is.
pub proof fn law_conversation_read(j: &Json, o: Vec<(String, Json)>, r: Option<Conversation>, t: Seq<char>, n: i64)
    requires
        call_ensures(Conversation::from_json, (j,), r),
        *j == Json::Obj(o),
    ensures
        lacks(o@, "id"@) || lacks(o@, "account"@) || lacks(o@, "group_id"@) || lacks(
            o@,
            "telegram_chat_id"@,
        ) ==> r is None,
        r matches Some(c) ==> {
            &&& counts(o@, "id"@, n) ==> c.id == n
            &&& counts(o@, "account"@, n) ==> c.account == n
            &&& says(o@, "group_id"@, t) ==> c.group_id@ == t
            &&& says(o@, "telegram_chat_id"@, t) ==> c.telegram_chat_id@ == t
            &&& says(o@, "telegram_topic_id"@, t) ==> (c.telegram_topic_id matches Some(x) && x@ == t)
            &&& lacks(o@, "telegram_topic_id"@) ==> c.telegram_topic_id is None
            &&& says(o@, "name"@, t) ==> (c.name matches Some(x) && x@ == t)
            &&& counts(o@, "last_forwarded_seq"@, n) ==> c.last_forwarded_seq == n
            &&& lacks(o@, "last_forwarded_seq"@) ==> c.last_forwarded_seq == 0
            &&& member_of(o@, "closed"@) == Some(Json::Bool(true)) ==> c.closed
            &&& member_of(o@, "closed"@) == Some(Json::Bool(false)) ==> !c.closed
            &&& lacks(o@, "closed"@) ==> !c.closed
            &&& member_of(o@, "closed"@) == Some(Json::Int(n)) ==> (c.closed <==> n != 0)
            &&& says(o@, "closed"@, t) ==> (c.closed <==> t == "1"@ || t == "true"@ || t == "TRUE"@)
        },
{
}

/// An account's row is read field by field; its status is one of three.
pub proof fn law_account_read(j: &Json, o: Vec<(String, Json)>, r: Option<Account>, t: Seq<char>, n: i64)
    requires
        call_ensures(Account::from_json, (j,), r),
        *j == Json::Obj(o),
    ensures
        lacks(o@, "id"@) || lacks(o@, "user"@) || lacks(o@, "tzibbur_user_id"@) || lacks(
            o@,
            "status"@,
        ) ==> r is None,
        r matches Some(a) ==> {
            &&& counts(o@, "id"@, n) ==> a.id == n
            &&& counts(o@, "user"@, n) ==> a.user == n
            &&& says(o@, "tzibbur_user_id"@, t) ==> a.tzibbur_user_id@ == t
            &&& says(o@, "phone_e164"@, t) ==> (a.phone_e164 matches Some(x) && x@ == t)
            &&& says(o@, "display_name"@, t) ==> (a.display_name matches Some(x) && x@ == t)
            &&& says(o@, "encrypted_session"@, t) ==> (a.encrypted_session matches Some(x) && x@ == t)
            &&& lacks(o@, "encrypted_session"@) ==> a.encrypted_session is None
            &&& says(o@, "status"@, "connected"@) ==> a.status == AccountStatus::Connected
            &&& says(o@, "status"@, "disconnected"@) ==> a.status == AccountStatus::Disconnected
            &&& says(o@, "status"@, "reauth_required"@) ==> a.status == AccountStatus::ReauthRequired
        },
{
    reveal_strlit("connected");
    reveal_strlit("reauth_required");
    reveal_strlit("disconnected");
    assert("connected"@.len() == 9);
    assert("reauth_required"@.len() == 15);
    assert("disconnected"@.len() == 12);
}

/// A message's row is read field by field.
pub proof fn law_message_map_read(j: &Json, o: Vec<(String, Json)>, r: Option<MessageMap>, t: Seq<char>, n: i64)
    requires
        call_ensures(MessageMap::from_json, (j,), r),
        *j == Json::Obj(o),
    ensures
        r matches Some(m) ==> {
            &&& counts(o@, "id"@, n) ==> m.id == n
            &&& counts(o@, "conversation"@, n) ==> m.conversation == n
            &&& says(o@, "tzibbur_message_id"@, t) ==> (m.tzibbur_message_id matches Some(x) && x@ == t)
            &&& says(o@, "client_message_id"@, t) ==> (m.client_message_id matches Some(x) && x@ == t)
            &&& says(o@, "telegram_message_id"@, t) ==> (m.telegram_message_id matches Some(x) && x@
                == t)
            &&& counts(o@, "seq"@, n) ==> m.seq == Some(n)
            &&& says(o@, "direction"@, "in"@) ==> m.direction == Direction::In
            &&& says(o@, "direction"@, "out"@) ==> m.direction == Direction::Out
        },
{
    reveal_strlit("in");
    reveal_strlit("out");
    assert("in"@.len() == 2 && "out"@.len() == 3);
}

/// The words for a status, written and read.
pub proof fn law_status_words(s: AccountStatus, w: &'static str, t: &str, r: Option<AccountStatus>)
    requires
        call_ensures(AccountStatus::as_str, (s,), w),
        call_ensures(AccountStatus::parse, (t,), r),
    ensures
        s == AccountStatus::Connected ==> w@ == "connected"@,
        s == AccountStatus::ReauthRequired ==> w@ == "reauth_required"@,
        s == AccountStatus::Disconnected ==> w@ == "disconnected"@,
        t@ == w@ ==> r == Some(s),
{
    crate::bridge::records::law_status_roundtrip(s);
}

/// The preferences of an account: each as it was set, and by default topics and phone numbers but
/// no marks.
pub proof fn law_preferences(a: &Account, o: Vec<(String, Json)>, r: AccountSettings)
    requires
        call_ensures(Account::settings, (a,), r),
    ensures
        a.settings is None ==> r.auto_topics && r.show_phone_numbers && !r.auto_mark_read,
        a.settings == Some(o) && lacks(o@, "auto_topics"@) && lacks(o@, "show_phone_numbers"@)
            && lacks(o@, "auto_mark_read"@) ==> r.auto_topics && r.show_phone_numbers
            && !r.auto_mark_read,
        a.settings == Some(o) && member_of(o@, "auto_topics"@) == Some(Json::Bool(false)) && lacks(
            o@,
            "show_phone_numbers"@,
        ) && lacks(o@, "auto_mark_read"@) ==> !r.auto_topics && r.show_phone_numbers
            && !r.auto_mark_read,
        a.settings == Some(o) && member_of(o@, "show_phone_numbers"@) == Some(Json::Bool(false))
            && lacks(o@, "auto_topics"@) && lacks(o@, "auto_mark_read"@) ==> r.auto_topics
            && !r.show_phone_numbers && !r.auto_mark_read,
        a.settings == Some(o) && member_of(o@, "auto_mark_read"@) == Some(Json::Bool(true)) && lacks(
            o@,
            "auto_topics"@,
        ) && lacks(o@, "show_phone_numbers"@) ==> r.auto_topics && r.show_phone_numbers
            && r.auto_mark_read,
{
}

/// A conversation's topic and chat are the numbers in its row; a message belongs to a conversation
/// where it stands in that chat.
pub proof fn law_where_a_conversation_is(c: &Conversation, chat: i64, t: Option<i32>, n: i64, r: bool)
    requires
        call_ensures(Conversation::topic_id, (c,), t),
        call_ensures(Conversation::chat_id, (c,), n),
        call_ensures(in_chat, (c, chat), r),
    ensures
        c.telegram_topic_id is None ==> t is None,
        c.telegram_topic_id matches Some(s) ==> t == parsed_i32(s@),
        parsed_i64(c.telegram_chat_id@) matches Some(x) ==> n == x,
        r <==> n == chat,
{
}

/// The account that is used for a user: the first of the connected ones; without one the first that
/// has to sign in again; else the first.
pub proof fn law_account_chosen(list: Vec<Account>, r: Option<Account>, i: int)
    requires
        call_ensures(account_for_user, (list,), r),
    ensures
        list@.len() == 0 <==> r is None,
        r matches Some(a) ==> list@.contains(a),
        0 <= i < list@.len() && list@[i].status == AccountStatus::Connected && (forall|k: int|
            0 <= k < i ==> (#[trigger] list@[k]).status != AccountStatus::Connected) ==> r == Some(
            list@[i],
        ),
        0 <= i < list@.len() && list@[i].status == AccountStatus::ReauthRequired && (forall|k: int|
            0 <= k < list@.len() ==> (#[trigger] list@[k]).status != AccountStatus::Connected) && (
        forall|k: int|
            0 <= k < i ==> (#[trigger] list@[k]).status != AccountStatus::ReauthRequired) ==> r
            == Some(list@[i]),
{
    if let Some(a) = r {
        let j = choose|j: int|
            {
                &&& 0 <= j < list@.len()
                &&& #[trigger] list@[j] == a
                &&& forall|k: int|
                    0 <= k < list@.len() ==> rank(a.status) <= rank((#[trigger] list@[k]).status)
                &&& forall|k: int| 0 <= k < j ==> rank((#[trigger] list@[k]).status) > rank(a.status)
            };
        assert(list@[j] == a);
        if 0 <= i < list@.len() {
            assert(rank(a.status) <= rank(list@[i].status));
            if i < j {
                assert(rank(list@[i].status) > rank(a.status));
            }
        }
    }
}

/// The connected accounts of a user, and no others.
pub proof fn law_connected_accounts(list: Vec<Account>, r: Vec<Account>, a: Account)
    requires
        call_ensures(accounts_for_user, (list,), r),
    ensures
        r@.contains(a) <==> list@.contains(a) && a.status == AccountStatus::Connected,
{
    let p = |x: Account| x.status == AccountStatus::Connected;
    if list@.contains(a) && p(a) {
        let k = choose|k: int| 0 <= k < list@.len() && list@[k] == a;
        lemma_filter_has(list@, p, k);
    }
    if list@.filter(p).contains(a) {
        lemma_filter_from(list@, p, a);
    }
}

/// A bookmark goes forward only.
pub proof fn law_bookmark_advances(c: &Conversation, seq: i64, now: &str, r: Option<Json>)
    requires
        call_ensures(advance_forwarded_seq, (c, seq, now), r),
    ensures
        seq <= c.last_forwarded_seq ==> r is None,
        seq > c.last_forwarded_seq ==> (r matches Some(Json::Obj(o)) && o@.len() == 2 && o@[0].0@
            == "last_forwarded_seq"@ && (o@[0].1 == Json::Int(seq) || (o@[0].1 matches Json::Big(n)
            && n == seq))),
{
    reveal_with_fuel(shows, 2);
    if let Some(j) = r {
        assert(shows(
            j,
            Doc::Record(
                seq![
                    ("last_forwarded_seq"@, Doc::Number(seq as int)),
                    ("updated_at"@, Doc::Text(now@)),
                ],
            ),
        ));
        let o = j->Obj_0;
        assert(o@[0].0@ == "last_forwarded_seq"@);
        assert(shows(o@[0].1, Doc::Number(seq as int)));
    }
}

/// A setting is found under its name after it was set, and every other one is as before.
pub proof fn law_setting_set(
    settings: Option<Vec<(String, Json)>>,
    key: &str,
    value: Json,
    r: Vec<(String, Json)>,
    other: Seq<char>,
)
    requires
        call_ensures(set_setting, (settings, key, value), r),
        other != key@,
    ensures
        member_of(r@, key@) == Some(value),
        settings matches Some(o) ==> member_of(r@, other) == member_of(o@, other),
        settings is None ==> member_of(r@, other) is None,
{
    let old: Seq<(String, Json)> = match settings {
        Some(o) => o@,
        None => seq![],
    };
    let p = crate::json::member_pos(old, key@, 0);
    lemma_first(old, key@, 0);
    assert forall|j: int| 0 <= j < p implies (#[trigger] r@[j]).0@ != key@ by {
        assert(r@[j] == old[j]);
    }
    law_member_found(r@, key@, p);
    let q = crate::json::member_pos(old, other, 0);
    lemma_first(old, other, 0);
    if q < old.len() {
        assert(q != p);
        assert(r@[q] == old[q]);
        assert forall|j: int| 0 <= j < q implies (#[trigger] r@[j]).0@ != other by {
            if j != p {
                assert(r@[j] == old[j]);
            }
        }
        law_member_found(r@, other, q);
    } else {
        assert forall|j: int| 0 <= j < r@.len() implies (#[trigger] r@[j]).0@ != other by {
            if j != p {
                assert(r@[j] == old[j]);
            }
        }
        law_member_found(r@, other, 0);
    }
}

proof fn lemma_first(o: Seq<(String, Json)>, name: Seq<char>, from: int)
    requires
        0 <= from <= o.len(),
    ensures
        from <= crate::json::member_pos(o, name, from) <= o.len(),
        crate::json::member_pos(o, name, from) < o.len() ==> o[crate::json::member_pos(
            o,
            name,
            from,
        )].0@ == name,
        forall|j: int|
            from <= j < crate::json::member_pos(o, name, from) ==> (#[trigger] o[j]).0@ != name,
    decreases o.len() - from,
{
    if from < o.len() && o[from].0@ != name {
        lemma_first(o, name, from + 1);
    }
}

/// A filter asks that a field equals a value.
pub open spec fn asks(f: Filter, field: Seq<char>, value: Seq<char>) -> bool {
    f.field@ == field && f.op@ == "_eq"@ && f.value@ == value
}

/// Rows are looked up by what makes them unique: a topic within its chat, a group within its
/// account, an identity within its user, a message within its conversation.
pub proof fn law_lookups(chat: i64, topic: i32, account: i64, group: &str, a: Vec<Filter>, b: Vec<Filter>, c: Vec<Filter>, d: Vec<Filter>)
    requires
        call_ensures(by_topic, (chat, topic), a),
        call_ensures(by_group, (account, group), b),
        call_ensures(by_identity, (account, group), c),
        call_ensures(by_message, (account, group), d),
    ensures
        a@.len() == 2 && asks(a@[0], "telegram_chat_id"@, decimal_int(chat as int)) && asks(
            a@[1],
            "telegram_topic_id"@,
            decimal_int(topic as int),
        ),
        b@.len() == 2 && asks(b@[0], "account"@, decimal_int(account as int)) && asks(
            b@[1],
            "group_id"@,
            group@,
        ),
        c@.len() == 2 && asks(c@[0], "user"@, decimal_int(account as int)) && asks(
            c@[1],
            "tzibbur_user_id"@,
            group@,
        ),
        d@.len() == 2 && asks(d@[0], "conversation"@, decimal_int(account as int)) && asks(
            d@[1],
            "tzibbur_message_id"@,
            group@,
        ),
{
}

/// A user's names are written again just where Telegram has others.
pub proof fn law_names_changed(u: &BridgeUser, username: Option<&str>, first: Option<&str>, r: bool)
    requires
        call_ensures(names_changed, (u, username, first), r),
    ensures
        !r <==> {
            &&& u.telegram_username is Some <==> username is Some
            &&& u.telegram_username is Some && username is Some ==> u.telegram_username->0@
                == username->0@
            &&& u.telegram_first_name is Some <==> first is Some
            &&& u.telegram_first_name is Some && first is Some ==> u.telegram_first_name->0@
                == first->0@
        },
{
}

/// The control topic is stored as its number, and as null where there is none.
pub proof fn law_home_topic(t: Option<i32>, r: Json)
    requires
        call_ensures(home_topic_value, (t,), r),
    ensures
        t matches Some(n) ==> r == Json::Int(n as i64),
        t is None ==> r == Json::Null,
{
}

} // verus!
