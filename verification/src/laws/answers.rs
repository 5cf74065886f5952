//! What users are told, and what they are asked before something is done.

use crate::bridge::callbacks::{
    ask_delete_card, disconnected_text, error_toast, mute_toast, number_in, read_toast, MemberAction,
};
use crate::bridge::cards::{group_action, member_menu};
use crate::bridge::commands::{
    add_numbers, ask_delete, ask_leave, contact_numbers, mute_answer, name_answer, not_sent_text,
    private_only, read_answer, settings_kb, sync_answer, trouble, Facts, Task,
};
use crate::bridge::dialogue::{ask_category, category_rows, numbers_read, Numbers, State, Step};
use crate::bridge::directus::{collection_names, DirectusError, Filter, Names};
use crate::bridge::format::escaped;
use crate::bridge::outbound::permission_request;
use crate::bridge::records::{AccountSettings, AccountStatus, BridgeUser, Conversation};
use crate::bridge::reply::{face, Reply};
use crate::bridge::reports::{
    created_report, device_line, format_add_failures, format_add_outcome, listed, members_report, status_report,
    too_long, Refused,
};
use crate::bridge::runtime::legacy_topic;
use crate::bridge::store::{by_number, by_text, users_with_home_topic};
use crate::json::{member_of, Json};
use crate::models::{AddMembersOutcome, Device, Permission, Role, UpdateGroupRequest};
use crate::numbers::{decimal, decimal_int, parsed_i64};
use crate::socket::SyncState;
use crate::store::{GroupEntity, MemberEntity};
use crate::text::{join, texts};
use vstd::prelude::*;

verus! {

/// A button bears these words and this meaning.
pub open spec fn key_at(r: Reply, row: int, k: int, label: Seq<char>, data: Seq<char>) -> bool {
    let rows = face(r).keyboard;
    0 <= row < rows.len() && 0 <= k < rows[row].len() && rows[row][k] == (label, data)
}

/// A connection can be used where the account is connected and running, and not otherwise.
pub proof fn law_connection_use(f: &Facts, r: Result<(), String>)
    requires
        call_ensures(Facts::connected_runtime, (f,), r),
    ensures
        r is Ok <==> (f.account matches Some(a) && a.status == AccountStatus::Connected)
            && f.running,
        f.account is None ==> r->Err_0@ == "Not connected. Send /connect."@,
        f.account is Some && f.account->0.status == AccountStatus::Disconnected ==> r->Err_0@
            == "Not connected. Send /connect."@,
        f.account is Some && f.account->0.status == AccountStatus::ReauthRequired ==> r->Err_0@
            == "Your session expired. Send /reconnect."@,
{
}

/// A command on a group needs a usable connection and a topic of the same account.
pub proof fn law_topic_use(f: &Facts, a: Result<(), String>, r: Result<(), String>)
    requires
        call_ensures(Facts::connected_runtime, (f,), a),
        call_ensures(Facts::topic_context, (f,), r),
    ensures
        a is Err ==> r is Err && r->Err_0@ == a->Err_0@,
        a is Ok && f.conversation is None ==> r is Err && r->Err_0@
            == "Send this inside a group topic."@,
        a is Ok && f.conversation is Some && f.conversation->0.account != f.account->0.id ==> r is Err
            && r->Err_0@ == "This topic belongs to another account."@,
        a is Ok && f.conversation is Some && f.conversation->0.account == f.account->0.id
            ==> r is Ok,
{
}

/// Only an admin is asked whether to delete a group; the yes and the no mean what they say.
pub proof fn law_ask_delete(g: &GroupEntity, conv: i64, r: Reply)
    requires
        call_ensures(ask_delete, (g, conv), r),
    ensures
        g.my_role == Role::Member ==> r.text@ == "Only admins can delete a group."@
            && r.keyboard@.len() == 0,
        g.my_role == Role::Admin ==> r.text@ == "Delete <b>"@ + escaped(g.name@)
            + "</b> for everyone? This cannot be undone."@ && key_at(
            r,
            0,
            0,
            "Delete for everyone"@,
            "g:"@ + decimal_int(conv as int) + ":"@ + "del2"@,
        ) && key_at(r, 0, 1, "Cancel"@, "noop"@),
{
    assert(face(r).keyboard.len() == r.keyboard@.len());
}

/// The card's question before a deletion names the group and offers a way back to the card.
pub proof fn law_ask_delete_card(c: &Conversation, r: Reply)
    requires
        call_ensures(ask_delete_card, (c,), r),
    ensures
        c.name is Some ==> r.text@ == "Delete <b>"@ + escaped(c.name->0@)
            + "</b> for all members? This cannot be undone."@,
        key_at(
            r,
            0,
            0,
            "Delete for everyone"@,
            "g:"@ + decimal_int(c.id as int) + ":"@ + "del2"@,
        ),
        key_at(r, 0, 1, "Cancel"@, "g:"@ + decimal_int(c.id as int) + ":"@ + "card"@),
{
}

/// The question before leaving a group names it, and the no means what the caller gave.
pub proof fn law_ask_leave(c: &Conversation, yes: &str, cancel: String, r: Reply)
    requires
        call_ensures(ask_leave, (c, yes, cancel), r),
    ensures
        c.name is Some ==> r.text@ == "Leave <b>"@ + escaped(c.name->0@) + "</b>?"@,
        c.name is None ==> r.text@ == "Leave <b>"@ + escaped("this group"@) + "</b>?"@,
        key_at(r, 0, 0, yes@, "leave:"@ + decimal_int(c.id as int)),
        key_at(r, 0, 1, "Cancel"@, cancel@),
{
}

/// An admin is offered to become a member and a member to become an admin; both can be removed.
pub proof fn law_member_menu(conv: i64, name: &str, user: &str, role: Role, r: Reply)
    requires
        call_ensures(member_menu, (conv, name, user, role), r),
    ensures
        role == Role::Admin ==> r.text@ == "<b>"@ + escaped(name@) + "</b> — "@ + "admin"@ && key_at(
            r,
            0,
            0,
            "Make member"@,
            "ma:"@ + decimal_int(conv as int) + ":"@ + user@ + ":"@ + "m"@,
        ),
        role == Role::Member ==> r.text@ == "<b>"@ + escaped(name@) + "</b> — "@ + "member"@
            && key_at(
            r,
            0,
            0,
            "Make admin"@,
            "ma:"@ + decimal_int(conv as int) + ":"@ + user@ + ":"@ + "a"@,
        ),
        key_at(
            r,
            1,
            0,
            "Remove from group"@,
            "ma:"@ + decimal_int(conv as int) + ":"@ + user@ + ":"@ + "r"@,
        ),
        key_at(r, 2, 0, "Back"@, "g:"@ + decimal_int(conv as int) + ":"@ + "members"@),
{
}

/// A button of the card names its conversation and its action.
pub proof fn law_group_action(conv: i64, action: &str, r: String)
    requires
        call_ensures(group_action, (conv, action), r),
    ensures
        r@ == "g:"@ + decimal_int(conv as int) + ":"@ + action@,
{
}

/// What a member's button did is told as it is.
pub proof fn law_member_toast(a: MemberAction, r: &'static str)
    requires
        call_ensures(MemberAction::toast, (a,), r),
    ensures
        a == MemberAction::Promote ==> r@ == "Promoted to admin"@,
        a == MemberAction::Demote ==> r@ == "Now a member"@,
        a == MemberAction::Remove ==> r@ == "Removed"@,
{
}

/// Toasts and answers tell what happened.
pub proof fn law_toasts(
    seq: i64,
    was_muted: bool,
    purge: bool,
    a: &'static str,
    b: &'static str,
    c: &'static str,
    d: Reply,
    e: Reply,
)
    requires
        call_ensures(read_toast, (seq,), a),
        call_ensures(mute_toast, (was_muted,), b),
        call_ensures(disconnected_text, (purge,), c),
        call_ensures(read_answer, (seq,), d),
        call_ensures(mute_answer, (was_muted,), e),
    ensures
        seq > 0 ==> a@ == "Marked read"@ && d.text@ == "Marked read."@,
        seq <= 0 ==> a@ == "Nothing to mark"@ && d.text@ == "Nothing to mark."@,
        was_muted ==> b@ == "Unmuted"@ && e.text@ == "Unmuted."@,
        !was_muted ==> b@ == "Muted"@ && e.text@ == "Muted."@,
        purge ==> c@ == "Disconnected and erased. Your Tzibbur account is untouched."@,
        !purge ==> c@ == "Disconnected. Your topics stay; /reconnect restores them."@,
{
}

/// An error in a toast is cut after its hundred and eightieth character.
pub proof fn law_error_toast(m: &str, r: String)
    requires
        call_ensures(error_toast, (m,), r),
    ensures
        m@.len() <= 180 ==> r@ == m@,
        m@.len() > 180 ==> r@ == m@.subrange(0, 180),
{
}

/// A number in a button is read as it is written, and nothing else is read.
pub proof fn law_number_in(s: &str, r: Result<i64, String>)
    requires
        call_ensures(number_in, (s,), r),
    ensures
        parsed_i64(s@) is Some ==> r is Ok && r->Ok_0 == parsed_i64(s@)->0,
        parsed_i64(s@) is None ==> r is Err,
{
}

/// Answers name what they speak of; what users wrote is escaped in them.
pub proof fn law_answers(
    lead: &str,
    why: &str,
    failure: &Option<String>,
    bot: &str,
    a: Reply,
    b: Reply,
    c: Reply,
    d: String,
    e: Reply,
)
    requires
        call_ensures(trouble, (lead, why), a),
        call_ensures(name_answer, (why,), b),
        call_ensures(sync_answer, (failure,), c),
        call_ensures(not_sent_text, (why,), d),
        call_ensures(private_only, (bot,), e),
    ensures
        a.text@ == lead@ + escaped(why@) && a.keyboard@.len() == 0,
        b.text@ == "Your name is now <b>"@ + escaped(why@) + "</b>."@,
        *failure is None ==> c.text@ == "Synced."@,
        *failure is Some ==> c.text@ == "Sync failed: "@ + escaped((*failure)->0@),
        d@ == "Not sent: "@ + escaped(why@) + "."@,
        e.text@ == "This bot works in a private chat. Open @"@ + bot@ + " directly."@,
{
    assert(face(a).keyboard.len() == a.keyboard@.len());
}

/// The settings show each preference as it stands, and offer to switch it.
pub proof fn law_settings_keys(s: AccountSettings, r: Reply)
    requires
        call_ensures(settings_kb, (s,), r),
    ensures
        face(r).keyboard.len() == 3,
        s.auto_topics ==> key_at(
            r,
            0,
            0,
            "[on]"@ + " Auto-create topics for new groups"@,
            "set:auto_topics"@,
        ),
        !s.auto_topics ==> key_at(
            r,
            0,
            0,
            "[off]"@ + " Auto-create topics for new groups"@,
            "set:auto_topics"@,
        ),
        s.show_phone_numbers ==> key_at(
            r,
            1,
            0,
            "[on]"@ + " Show phone numbers for unnamed senders"@,
            "set:show_phone_numbers"@,
        ),
        !s.show_phone_numbers ==> key_at(
            r,
            1,
            0,
            "[off]"@ + " Show phone numbers for unnamed senders"@,
            "set:show_phone_numbers"@,
        ),
        key_at(r, 2, 0, "Done"@, "noop"@),
{
}

/// Members are added where a number was read; what was none is named in a note.
pub proof fn law_add_numbers(phones: Vec<String>, bad: &Vec<String>, t: Task)
    requires
        call_ensures(add_numbers, (phones, bad), t),
    ensures
        phones@.len() == 0 <==> t is Say,
        phones@.len() > 0 ==> (t matches Task::AddMembers { phones: p, note } && texts(p@) == texts(
            phones@,
        ) && (note is None <==> bad@.len() == 0) && (note matches Some(n) ==> n@
            == "Not phone numbers: "@ + escaped(join(texts(bad@), ", "@)))),
{
    assert(texts(phones@).len() == phones@.len());
    assert(texts(bad@).len() == bad@.len());
    if t is AddMembers && t->AddMembers_note is Some {
        assert(t->AddMembers_note->0@ =~= "Not phone numbers: "@ + escaped(
            join(texts(bad@), ", "@),
        ));
    }
}

/// Contacts are looked up where a number was read.
pub proof fn law_contact_numbers(phones: Vec<String>, bad: Vec<String>, t: Task)
    requires
        call_ensures(contact_numbers, (phones, bad), t),
    ensures
        phones@.len() == 0 <==> t is Say,
        phones@.len() > 0 ==> (t matches Task::Contacts { phones: p, bad: b } && texts(p@) == texts(
            phones@,
        ) && texts(b@) == texts(bad@)),
{
    assert(texts(phones@).len() == phones@.len());
}

/// The dialogue goes on where a number was read, and asks again where none was.
pub proof fn law_numbers_read(
    phones: Vec<String>,
    bad: &Vec<String>,
    ask: &str,
    lead: &str,
    end: &str,
    r: Numbers,
)
    requires
        call_ensures(numbers_read, (phones, bad, ask, lead, end), r),
    ensures
        phones@.len() == 0 ==> (r matches Numbers::Missing(m) && m.text@ == ask@),
        phones@.len() > 0 ==> (r matches Numbers::Given { phones: p, note } && texts(p@) == texts(
            phones@,
        ) && (note is None <==> bad@.len() == 0) && (note matches Some(n) ==> n@ == lead@ + escaped(
            join(texts(bad@), ", "@),
        ) + end@)),
{
    assert(texts(phones@).len() == phones@.len());
    assert(texts(bad@).len() == bad@.len());
}

/// Only what is given is changed.
pub proof fn law_permission_request(
    post: Option<Permission>,
    add: Option<Permission>,
    r: UpdateGroupRequest,
)
    requires
        call_ensures(permission_request, (post, add), r),
    ensures
        r.name is None && r.who_can_post == post && r.who_can_add_members == add,
{
}

/// A note about a text over its limit gives its length and the limit.
pub proof fn law_too_long(n: usize, max: usize, r: String)
    requires
        call_ensures(too_long, (n, max), r),
    ensures
        r@ == "Too long: "@ + decimal(n as nat) + " characters, the limit is "@ + decimal(max as nat)
            + "."@,
{
}

/// A new group's report says how many members it takes to post, where it takes more than one.
pub proof fn law_created_report(name: &str, min: Option<u32>, r: String)
    requires
        call_ensures(created_report, (name, min), r),
    ensures
        (min is None || min->0 <= 1) ==> r@ == "Created <b>"@ + escaped(name@) + "</b>.\n"@,
        min is Some && min->0 > 1 ==> r@ == "Created <b>"@ + escaped(name@) + "</b>.\n"@ + (
        "ℹ️ Tzibbur lets people post once the group has <b>"@ + decimal(min->0 as nat)
            + "</b> members. Add more any time with /add inside its topic.\n"@),
{
    if min is None || min->0 <= 1 {
        assert(r@ =~= "Created <b>"@ + escaped(name@) + "</b>.\n"@);
    }
}

/// The outcome of an addition lists each kind of number once; an empty one says so.
pub proof fn law_add_outcome(o: &AddMembersOutcome, r: String)
    requires
        call_ensures(format_add_outcome, (o,), r),
    ensures
        o.added@.len() == 0 && o.already_member@.len() == 0 && o.not_found@.len() == 0 ==> r@
            == "Nothing changed."@,
        o.added@.len() == 0 && o.already_member@.len() > 0 && o.not_found@.len() == 0 ==> r@
            == "ℹ️ Already members: "@ + escaped(join(texts(o.already_member@), ", "@)) + "\n"@,
        o.added@.len() == 0 && o.already_member@.len() == 0 && o.not_found@.len() > 0 ==> r@
            == "Not on Tzibbur: "@ + escaped(join(texts(o.not_found@), ", "@)) + "\n"@,
{
    reveal_strlit("\n");
    let a = listed("ℹ️ Already members: "@, texts(o.already_member@), "\n"@);
    let b = listed("Not on Tzibbur: "@, texts(o.not_found@), "\n"@);
    if o.added@.len() == 0 && o.not_found@.len() == 0 {
        assert(Seq::<char>::empty() + a + b =~= a);
    }
    if o.added@.len() == 0 && o.already_member@.len() == 0 {
        assert(Seq::<char>::empty() + a + b =~= b);
    }
}

/// Without an account the report asks to connect.
pub proof fn law_status_report(sync: Option<SyncState>, groups: usize, topics: bool, r: String)
    requires
        call_ensures(status_report, (&None, sync, groups, topics), r),
    ensures
        r@ == "Not connected. Send /connect."@,
{
}

/// The report on members starts with the group's name and their number.
pub proof fn law_members_report(
    name: &Option<String>,
    ms: &Vec<MemberEntity>,
    me: &str,
    r: String,
)
    requires
        call_ensures(members_report, (name, ms, me), r),
    ensures
        *name is Some ==> ("<b>"@ + escaped((*name)->0@) + "</b> — "@ + decimal(ms@.len())
            + " member(s)\n"@).is_prefix_of(r@),
        *name is None ==> ("<b>"@ + escaped("Group"@) + "</b> — "@ + decimal(ms@.len())
            + " member(s)\n"@).is_prefix_of(r@),
{
}

/// A device that was never seen is told as such.
pub proof fn law_device_line(d: &Device, seen: &Option<String>, r: String)
    requires
        call_ensures(device_line, (d, seen), r),
        d.platform is Some,
        d.device_model is Some,
    ensures
        *seen is None ==> r@ == "• "@ + escaped(d.platform->0@) + " "@ + escaped(d.device_model->0@)
            + " — last seen "@ + "never"@ + "\n"@,
        *seen is Some ==> r@ == "• "@ + escaped(d.platform->0@) + " "@ + escaped(d.device_model->0@)
            + " — last seen "@ + (*seen)->0@ + "\n"@,
{
}

/// The control topic of a user is the one under its preference, be it a number or a text.
pub proof fn law_home_topic(
    u: &BridgeUser,
    o: Vec<(String, Json)>,
    n: i32,
    r: Option<i32>,
    c: Option<(i64, i32)>,
)
    requires
        u.settings == Some(o),
        call_ensures(BridgeUser::home_topic_id, (u,), r),
        call_ensures(legacy_topic, (u,), c),
    ensures
        member_of(o@, "home_topic_id"@) == Some(Json::Int(n as i64)) ==> r == Some(n),
        member_of(o@, "home_topic_id"@) is None ==> r is None && c is None,
        member_of(o@, "home_topic_id"@) == Some(Json::Int(n as i64)) && parsed_i64(
            u.telegram_user_id@,
        ) is Some ==> c == Some((parsed_i64(u.telegram_user_id@)->0, n)),
{
}

/// The account of the main thread is the one under its preference.
pub proof fn law_active_account(u: &BridgeUser, o: Vec<(String, Json)>, n: i64, r: Option<i64>)
    requires
        u.settings == Some(o),
        call_ensures(BridgeUser::active_account, (u,), r),
    ensures
        member_of(o@, "active_account"@) == Some(Json::Int(n)) ==> r == Some(n),
        member_of(o@, "active_account"@) is None ==> r is None,
{
}

/// A user is kept where there is a control topic.
pub proof fn law_users_at_home(list: Vec<BridgeUser>, r: Vec<BridgeUser>, u: BridgeUser, t: Option<i32>)
    requires
        call_ensures(users_with_home_topic, (list,), r),
        call_ensures(BridgeUser::home_topic_id, (&u,), t),
    ensures
        r@.contains(u) <==> list@.contains(u) && t is Some,
{
    broadcast use {
        Seq::lemma_filter_contains,
        Seq::lemma_filter_contains_rev,
        Seq::lemma_filter_pred,
    };
    if list@.contains(u) {
        let i = choose|i: int| 0 <= i < list@.len() && list@[i] == u;
        assert(list@[i] == u);
    }
}

/// A condition names its field and the value that it equals.
pub proof fn law_filters(
    field: &str,
    n: i64,
    s: &str,
    a: Vec<Filter>,
    b: Vec<Filter>,
    c: Filter,
    d: Filter,
)
    requires
        call_ensures(by_number, (field, n), a),
        call_ensures(by_text, (field, s), b),
        call_ensures(Filter::eq, (field, s), c),
        call_ensures(Filter::eq_number, (field, n), d),
    ensures
        a@.len() == 1 && a@[0].field@ == field@ && a@[0].op@ == "_eq"@ && a@[0].value@
            == decimal_int(n as int),
        b@.len() == 1 && b@[0].field@ == field@ && b@[0].op@ == "_eq"@ && b@[0].value@ == s@,
        c.field@ == field@ && c.op@ == "_eq"@ && c.value@ == s@,
        d.field@ == field@ && d.op@ == "_eq"@ && d.value@ == decimal_int(n as int),
{
}

/// An error of the database keeps its status, and its message is the named one or the text's
/// first three hundred characters.
pub proof fn law_database_error(
    status: u16,
    words: String,
    path: &str,
    named: Option<String>,
    text: &str,
    r: DirectusError,
)
    requires
        call_ensures(DirectusError::from_reply, (status, words, path, named, text), r),
    ensures
        r.status == status && r.status_text == words && r.path@ == path@,
        named is Some ==> r.message@ == named->0@,
        named is None && text@.len() <= 300 ==> r.message@ == text@,
        named is None && text@.len() > 300 ==> r.message@ == text@.subrange(0, 300),
{
}

/// The tables bear the prefix.
pub proof fn law_collections(prefix: &str, r: Names)
    requires
        call_ensures(collection_names, (prefix,), r),
    ensures
        r.users@ == prefix@ + "users"@ && r.accounts@ == prefix@ + "accounts"@,
        r.conversations@ == prefix@ + "conversations"@ && r.messages@ == prefix@ + "messages"@,
{
}

/// The categories are offered in rows of three, each under its own name.
pub proof fn law_categories(name: String, cats: &Vec<String>, s: Step, i: int)
    requires
        call_ensures(ask_category, (name, cats), s),
        0 <= i < cats@.len(),
    ensures
        s matches Step::Move { state, reply } && state == (State::AwaitGroupCategory { name })
            && reply.text@ == "Category for <b>"@ + escaped(name@) + "</b>?"@ && key_at(
            reply,
            i / 3,
            i % 3,
            cats@[i]@,
            "cat:"@ + cats@[i]@,
        ),
{
    lemma_category_at(texts(cats@), i);
}

proof fn lemma_category_at(cats: Seq<Seq<char>>, i: int)
    requires
        0 <= i < cats.len(),
    ensures
        ({
            let rows = category_rows(cats);
            0 <= i / 3 < rows.len() && i % 3 < rows[i / 3].len() && rows[i / 3][i % 3] == (
                cats[i],
                "cat:"@ + cats[i],
            )
        }),
    decreases cats.len(),
{
    if cats.len() > 3 && i >= 3 {
        let rest = cats.skip(3);
        lemma_category_at(rest, i - 3);
        assert((i - 3) / 3 == i / 3 - 1 && (i - 3) % 3 == i % 3);
        assert(rest[i - 3] == cats[i]);
    }
}

/// A refused number is listed with the reason; where none is, nothing is said.
pub proof fn law_add_failures(v: &Vec<Refused>, r: String)
    requires
        call_ensures(format_add_failures, (v,), r),
    ensures
        v@.len() == 0 ==> r@.len() == 0,
        v@.len() == 1 ==> r@ == "Refused by Tzibbur: "@ + (escaped(v@[0].phone@) + " ("@ + escaped(
            v@[0].why@,
        ) + ")"@) + "\n"@,
{
    if v@.len() == 1 {
        let one = crate::bridge::reports::refused_texts(v@);
        assert(one =~= seq![escaped(v@[0].phone@) + " ("@ + escaped(v@[0].why@) + ")"@]);
        reveal_with_fuel(join, 2);
        assert(join(one, ", "@) =~= one[0]);
    }
}

} // verus!
