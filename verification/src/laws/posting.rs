//! Posting to a group from its topic.

use crate::bridge::outbound::{
    big_enough, forget_confirmed, forget_member, mark_conversation_read, send_text, too_small_ids,
};
use crate::bridge::records::Conversation;
use crate::laws::cache::marked_read;
use crate::laws::common::{lemma_only_group, lemma_only_member};
use crate::laws::text::{blank, law_contained, law_contains, law_trim};
use crate::models::{GroupDto, GroupKind, MessageDto, Role};
use crate::socket::SyncState;
use crate::store::{LocalStore, MemberEntity, OutboxEntity, OutboxState};
use crate::store::local::{
    group_pos, lemma_group_pos, lemma_member_row_pos, lemma_outbox_pos, member_row_pos,
};
use crate::sync::AckVia;
use crate::text::{ascii_upper, contains_text, trim};
use vstd::prelude::*;

verus! {

/// A text that a message can hold: not blank, and of at most a thousand characters.
pub open spec fn can_be_sent(text: Seq<char>) -> bool {
    text.len() <= 1000 && !blank(text)
}

/// The text was queued for the group: a new row holds it, without the white space around it, and
/// waits to be sent. Every row that was there is still there.
pub open spec fn was_queued(
    s: LocalStore,
    t: LocalStore,
    group: Seq<char>,
    text: Seq<char>,
    now: i64,
    r: Result<OutboxEntity, String>,
) -> bool {
    &&& r matches Ok(e) && {
        &&& e.group_id@ == group
        &&& e.body@ == trim(text)
        &&& e.state == OutboxState::Pending
        &&& e.error_code is None
        &&& e.next_attempt_at is None
        &&& e.created_at == now
        &&& (forall|k: int|
            0 <= k < s.outbox_rows@.len() ==> (#[trigger] s.outbox_rows@[k]).client_message_id@
                != e.client_message_id@) ==> t.outbox_rows@ == s.outbox_rows@.push(e)
    }
    &&& t.group_rows == s.group_rows
    &&& t.message_rows == s.message_rows
}

/// The text was refused: nothing was queued, and nothing changed.
pub open spec fn was_refused(s: LocalStore, t: LocalStore, r: Result<OutboxEntity, String>) -> bool {
    r is Err && t == s
}

/// Admins may post in every group but system threads; so may plain members where the group is not
/// for admins or owners alone.
pub proof fn law_may_post(conv: &Conversation, text: &str, now: i64, g: int)
    requires
        can_be_sent(text@),
    ensures
        forall|store: &mut LocalStore, r: Result<OutboxEntity, String>|
            {
                &&& store.wf()
                &&& 0 <= g < store.group_rows@.len()
                &&& store.group_rows@[g].id@ == conv.group_id@
                &&& store.group_rows@[g].kind != GroupKind::System
                &&& store.group_rows@[g].my_role == Role::Admin || (forall|a: Seq<char>, b: Seq<char>|
                    ascii_upper(store.group_rows@[g].who_can_post.0@) != #[trigger] ((a + "ADMIN"@)
                        + b)) && (forall|a: Seq<char>, b: Seq<char>|
                    ascii_upper(store.group_rows@[g].who_can_post.0@) != #[trigger] ((a + "OWNER"@)
                        + b))
                &&& #[trigger] call_ensures(send_text, (store, conv, text, now), r)
            } ==> was_queued(*store, *final(store), conv.group_id@, text@, now, r),
{
    assert forall|store: &mut LocalStore, r: Result<OutboxEntity, String>|
        {
            &&& store.wf()
            &&& 0 <= g < store.group_rows@.len()
            &&& store.group_rows@[g].id@ == conv.group_id@
            &&& store.group_rows@[g].kind != GroupKind::System
            &&& store.group_rows@[g].my_role == Role::Admin || (forall|a: Seq<char>, b: Seq<char>|
                ascii_upper(store.group_rows@[g].who_can_post.0@) != #[trigger] ((a + "ADMIN"@) + b))
                && (forall|a: Seq<char>, b: Seq<char>|
                ascii_upper(store.group_rows@[g].who_can_post.0@) != #[trigger] ((a + "OWNER"@) + b))
            &&& #[trigger] call_ensures(send_text, (store, conv, text, now), r)
        } implies was_queued(*store, *final(store), conv.group_id@, text@, now, r) by {
        lemma_only_group(*store, conv.group_id@, g);
        law_trim(text@);
        let up = ascii_upper(store.group_rows@[g].who_can_post.0@);
        if contains_text(up, "ADMIN"@) {
            law_contained(up, "ADMIN"@);
        }
        if contains_text(up, "OWNER"@) {
            law_contained(up, "OWNER"@);
        }
        match r {
            Ok(e) => {
                lemma_outbox_pos(store.outbox_rows@, e.client_message_id@);
            },
            Err(_) => {},
        }
    }
}

/// Nobody posts in a system thread, plain members not where the group is for admins or owners, and
/// nobody in a group that is not cached. A blank text and one that is too long are refused
/// everywhere.
pub proof fn law_may_not_post(conv: &Conversation, text: &str, now: i64, g: int, a: Seq<char>, b: Seq<char>)
    ensures
        forall|store: &mut LocalStore, r: Result<OutboxEntity, String>|
            {
                &&& store.wf()
                &&& #[trigger] call_ensures(send_text, (store, conv, text, now), r)
                &&& {
                    ||| !can_be_sent(text@)
                    ||| forall|k: int|
                        0 <= k < store.group_rows@.len() ==> (#[trigger] store.group_rows@[k]).id@
                            != conv.group_id@
                    ||| {
                        &&& 0 <= g < store.group_rows@.len()
                        &&& store.group_rows@[g].id@ == conv.group_id@
                        &&& store.group_rows@[g].kind == GroupKind::System || (
                        store.group_rows@[g].my_role == Role::Member && (ascii_upper(
                            store.group_rows@[g].who_can_post.0@,
                        ) == a + "ADMIN"@ + b || ascii_upper(store.group_rows@[g].who_can_post.0@)
                            == a + "OWNER"@ + b))
                    }
                }
            } ==> was_refused(*store, *final(store), r),
{
    assert forall|store: &mut LocalStore, r: Result<OutboxEntity, String>|
        {
            &&& store.wf()
            &&& #[trigger] call_ensures(send_text, (store, conv, text, now), r)
            &&& {
                ||| !can_be_sent(text@)
                ||| forall|k: int|
                    0 <= k < store.group_rows@.len() ==> (#[trigger] store.group_rows@[k]).id@
                        != conv.group_id@
                ||| {
                    &&& 0 <= g < store.group_rows@.len()
                    &&& store.group_rows@[g].id@ == conv.group_id@
                    &&& store.group_rows@[g].kind == GroupKind::System || (
                    store.group_rows@[g].my_role == Role::Member && (ascii_upper(
                        store.group_rows@[g].who_can_post.0@,
                    ) == a + "ADMIN"@ + b || ascii_upper(store.group_rows@[g].who_can_post.0@) == a
                        + "OWNER"@ + b))
                }
            }
        } implies was_refused(*store, *final(store), r) by {
        law_trim(text@);
        law_contains(a, "ADMIN"@, b);
        law_contains(a, "OWNER"@, b);
        lemma_group_pos(store.group_rows@, conv.group_id@);
        if 0 <= g < store.group_rows@.len() {
            lemma_only_group(*store, conv.group_id@, g);
        }
    }
}

/// Once a message is confirmed, its text is not kept: no delivered row holds one, nor does the cache
/// up to its place in the group. What still waits keeps its text.
pub proof fn law_confirmed_text_is_forgotten(message: &MessageDto, i: int)
    ensures
        forall|store: &mut LocalStore|
            store.wf() && #[trigger] call_ensures(forget_confirmed, (store, message), ()) ==> {
                &&& 0 <= i < store.outbox_rows@.len() ==> {
                    let a = store.outbox_rows@[i];
                    let b = final(store).outbox_rows@[i];
                    &&& a.state == OutboxState::Confirmed ==> b.body@.len() == 0
                    &&& a.state != OutboxState::Confirmed ==> b == a
                    &&& b.client_message_id == a.client_message_id && b.state == a.state
                }
                &&& 0 <= i < store.message_rows@.len() ==> {
                    let a = store.message_rows@[i];
                    let b = final(store).message_rows@[i];
                    &&& b.id == a.id && b.seq == a.seq
                    &&& message.group_id is Some && message.group_id->0@ == a.group_id@ && a.seq
                        <= message.seq ==> b.body@.len() == 0
                    &&& message.group_id is Some && (message.group_id->0@ != a.group_id@ || a.seq
                        > message.seq) ==> b == a
                }
                &&& final(store).outbox_rows@.len() == store.outbox_rows@.len()
                &&& final(store).message_rows@.len() == store.message_rows@.len()
            },
{
    assert forall|store: &mut LocalStore|
        store.wf() && #[trigger] call_ensures(forget_confirmed, (store, message), ()) implies {
        &&& 0 <= i < store.outbox_rows@.len() ==> {
            let a = store.outbox_rows@[i];
            let b = final(store).outbox_rows@[i];
            &&& a.state == OutboxState::Confirmed ==> b.body@.len() == 0
            &&& a.state != OutboxState::Confirmed ==> b == a
            &&& b.client_message_id == a.client_message_id && b.state == a.state
        }
        &&& 0 <= i < store.message_rows@.len() ==> {
            let a = store.message_rows@[i];
            let b = final(store).message_rows@[i];
            &&& b.id == a.id && b.seq == a.seq
            &&& message.group_id is Some && message.group_id->0@ == a.group_id@ && a.seq
                        <= message.seq ==> b.body@.len() == 0
            &&& message.group_id is Some && (message.group_id->0@ != a.group_id@ || a.seq
                        > message.seq) ==> b == a
        }
        &&& final(store).outbox_rows@.len() == store.outbox_rows@.len()
        &&& final(store).message_rows@.len() == store.message_rows@.len()
    } by {
        if 0 <= i < store.message_rows@.len() {
            let b = final(store).message_rows@[i];
            assert(crate::store::messages::redacted_row(
                store.message_rows@[i],
                b,
                match message.group_id {
                    Some(g) => g@,
                    None => Seq::empty(),
                },
                message.seq,
            ));
        }
        if 0 <= i < store.outbox_rows@.len() {
            let b = final(store).outbox_rows@[i];
            assert(b == (OutboxEntity { body: b.body, ..store.outbox_rows@[i] }));
        }
    }
}

/// The messages that wait for more members are those that failed for want of them.
pub proof fn law_waiting_for_members(rows: Seq<OutboxEntity>, id: Seq<char>)
    ensures
        too_small_ids(rows).contains(id) <==> exists|i: int|
            0 <= i < rows.len() && (#[trigger] rows[i]).client_message_id@ == id && (
            rows[i].error_code matches Some(c) && c@ == "group-too-small"@),
    decreases rows.len(),
{
    if rows.len() > 0 {
        let t = rows.drop_last();
        law_waiting_for_members(t, id);
        let before = too_small_ids(t);
        let all = too_small_ids(rows);
        if all.contains(id) {
            let k = choose|k: int| 0 <= k < all.len() && all[k] == id;
            if k < before.len() {
                assert(before[k] == id);
                let i = choose|i: int|
                    0 <= i < t.len() && (#[trigger] t[i]).client_message_id@ == id && (
                    t[i].error_code matches Some(c) && c@ == "group-too-small"@);
                assert(rows[i] == t[i]);
            } else {
                assert(rows[rows.len() - 1].client_message_id@ == id);
            }
        }
        if exists|i: int|
            0 <= i < rows.len() && (#[trigger] rows[i]).client_message_id@ == id && (
            rows[i].error_code matches Some(c) && c@ == "group-too-small"@) {
            let i = choose|i: int|
                0 <= i < rows.len() && (#[trigger] rows[i]).client_message_id@ == id && (
                rows[i].error_code matches Some(c) && c@ == "group-too-small"@);
            if i < t.len() {
                assert(t[i].client_message_id@ == id);
                let k = choose|k: int| 0 <= k < before.len() && before[k] == id;
                assert(all[k] == id);
            } else {
                assert(all[all.len() - 1] == id);
            }
        }
    }
}

/// A group is big enough to post in where it has the members that the server asks for, if it asks
/// for any.
pub proof fn law_big_enough(g: &GroupDto, r: bool)
    requires
        call_ensures(big_enough, (g,), r),
    ensures
        g.limits is None && g.member_count >= 0 ==> r,
        g.limits matches Some(l) ==> (l.min_members_to_post matches Some(n) ==> r == (g.member_count
            >= n)),
{
}

/// Marking a conversation as read reaches its newest cached message: afterwards none of the group's
/// messages lies beyond the read position.
pub proof fn law_conversation_read(state: SyncState, conv: &Conversation, k: int)
    ensures
        forall|store: &mut LocalStore, r: (i64, AckVia)|
            {
                &&& store.wf()
                &&& #[trigger] call_ensures(mark_conversation_read, (store, state, conv), r)
                &&& 0 <= k < store.message_rows@.len()
                &&& store.message_rows@[k].group_id@ == conv.group_id@
                &&& store.message_rows@[k].seq > 0
            } ==> {
                &&& r.0 >= store.message_rows@[k].seq
                &&& r.1 == AckVia::Socket <==> state == SyncState::Connected
                &&& r.1 != AckVia::Nothing
                &&& marked_read(*store, *final(store), conv.group_id@, r.0)
                &&& exists|i: int|
                    0 <= i < store.message_rows@.len() && (
                    #[trigger] store.message_rows@[i]).group_id@ == conv.group_id@
                        && store.message_rows@[i].seq == r.0
            },
{
    assert forall|store: &mut LocalStore, r: (i64, AckVia)|
        {
            &&& store.wf()
            &&& #[trigger] call_ensures(mark_conversation_read, (store, state, conv), r)
            &&& 0 <= k < store.message_rows@.len()
            &&& store.message_rows@[k].group_id@ == conv.group_id@
            &&& store.message_rows@[k].seq > 0
        } implies {
        &&& r.0 >= store.message_rows@[k].seq
        &&& r.1 == AckVia::Socket <==> state == SyncState::Connected
        &&& r.1 != AckVia::Nothing
        &&& marked_read(*store, *final(store), conv.group_id@, r.0)
        &&& exists|i: int|
            0 <= i < store.message_rows@.len() && (#[trigger] store.message_rows@[i]).group_id@
                == conv.group_id@ && store.message_rows@[i].seq == r.0
    } by {
        let rows = store.message_rows@;
        crate::laws::cache::lemma_max(rows, conv.group_id@, k);
        let i = crate::laws::cache::lemma_max_origin(rows, conv.group_id@);
        assert(rows[i].group_id@ == conv.group_id@);
        lemma_group_pos(store.group_rows@, conv.group_id@);
        assert forall|j: int| 0 <= j < store.group_rows@.len() implies ((
        #[trigger] store.group_rows@[j]).id@ == conv.group_id@ <==> j == group_pos(
            store.group_rows@,
            conv.group_id@,
        )) by {
            lemma_only_group(*store, conv.group_id@, j);
        }
    }
}

/// A member who was removed is in the cache no longer; everyone else is.
pub proof fn law_forget_member(group: &str, user: &str, m: MemberEntity)
    ensures
        forall|store: &mut LocalStore|
            store.wf() && #[trigger] call_ensures(forget_member, (store, group, user), ()) ==> (
            final(store).member_rows@.contains(m) <==> store.member_rows@.contains(m) && !(
            m.group_id@ == group@ && m.user_id@ == user@)),
{
    assert forall|store: &mut LocalStore|
        store.wf() && #[trigger] call_ensures(forget_member, (store, group, user), ()) implies (
    final(store).member_rows@.contains(m) <==> store.member_rows@.contains(m) && !(m.group_id@
        == group@ && m.user_id@ == user@)) by {
        let old = store.member_rows@;
        let new = final(store).member_rows@;
        lemma_member_row_pos(old, group@, user@);
        let p = member_row_pos(old, group@, user@);
        if new.contains(m) {
            let i = choose|i: int| 0 <= i < new.len() && new[i] == m;
            let k = if p < old.len() && i >= p {
                i + 1
            } else {
                i
            };
            assert(old[k] == m);
            lemma_only_member(*store, group@, user@, k);
        }
        if old.contains(m) && !(m.group_id@ == group@ && m.user_id@ == user@) {
            let k = choose|k: int| 0 <= k < old.len() && old[k] == m;
            if p < old.len() {
                assert(k != p);
                let i = if k < p {
                    k
                } else {
                    k - 1
                };
                assert(new[i] == m);
            }
        }
    }
}

} // verus!
