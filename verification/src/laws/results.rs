//! What single functions give back, in the terms that the other laws use.

use crate::bridge::format::{
    chunk, escape_html, escaped, label_of, law_chunks_keep_text, rejoined, render_inbound,
    sender_label,
};
use crate::bridge::forward::{
    bookmark, forwards, history_of, leftovers, lookup_due, page_asked, page_taken, plan_forward,
    planned, ForwardPlan, Search,
};
use crate::bridge::outbound::{
    all_due_again, rejection_reason, retry_all, show_answer, telegram_message_of, too_small_ids,
    waiting_for_members, Explanation,
};
use crate::bridge::records::{Conversation, MessageMap};
use crate::error::AppError;
use crate::http::CommandReply;
use crate::laws::common::{lemma_filter_from, lemma_filter_has, lemma_only_row};
use crate::models::{GroupDto, MessageDto, MessagesPage, MessagesQuery};
use crate::numbers::{decimal, decimal_int, show_i64, show_u64};
use crate::outbox::{
    claim, claimed, rest_after, rest_ms, settle, settle_command, settled, step_after_failure,
    without_row, Claim, OutboxEvent, Step,
};
use crate::store::{GroupEntity, LocalStore, MemberEntity, MessageEntity, OutboxEntity, OutboxState};
use crate::store::local::{lemma_outbox_pos, outbox_unique};
use crate::sync::{
    applied, apply_group_event, apply_incoming, event_applied, AckVia, AfterGroupEvent, Applied,
    GroupFetch,
};
use crate::text::{
    ascii_lower, ascii_upper, begins_with, contains, contains_text, first_chars, is_white,
    is_white_char, join, joined, same, same_ignoring_case, skip_chars, split, split_on, starts_with,
    take_chars, texts, to_ascii_lower, to_ascii_upper, trim, trim_end, trimmed, trimmed_end,
};
use crate::ws::GroupEvent;
use vstd::prelude::*;

verus! {

/// The functions on texts are those that the laws on texts speak of.
pub proof fn law_text_results(s: &str, p: &str, n: usize, c: char, r: String, b: bool)
    ensures
        call_ensures(trimmed, (s,), r) ==> r@ == trim(s@),
        call_ensures(trimmed_end, (s,), r) ==> r@ == trim_end(s@),
        call_ensures(to_ascii_lower, (s,), r) ==> r@ == ascii_lower(s@),
        call_ensures(to_ascii_upper, (s,), r) ==> r@ == ascii_upper(s@),
        call_ensures(take_chars, (s, n), r) ==> r@ == first_chars(s@, n as int),
        call_ensures(escape_html, (s,), r) ==> r@ == escaped(s@),
        call_ensures(contains, (s, p), b) ==> b == contains_text(s@, p@),
        call_ensures(starts_with, (s, p), b) ==> b == begins_with(s@, p@),
        call_ensures(is_white_char, (c,), b) ==> b == is_white(c),
        call_ensures(same, (s, p), b) ==> b == (s@ == p@),
{
}

/// What is skipped is gone, and what is behind it stays.
pub proof fn law_skip_chars(s: &str, n: usize, a: Seq<char>, b: Seq<char>, r: String)
    requires
        call_ensures(skip_chars, (s, n), r),
    ensures
        s@ == a + b && a.len() == n ==> r@ == b,
        n > s@.len() ==> r@.len() == 0,
{
    if s@ == a + b && a.len() == n {
        assert(s@.skip(n as int) =~= b);
    }
}

/// Two texts agree up to case where one has the letters of the other in capitals or not.
pub proof fn law_same_ignoring_case(a: &str, b: &str, r: bool)
    requires
        call_ensures(same_ignoring_case, (a, b), r),
    ensures
        a@ == b@ ==> r,
        ascii_lower(a@) == b@ ==> r,
        ascii_upper(a@) == b@ ==> r,
        a@.len() != b@.len() ==> !r,
{
    if ascii_lower(a@) == b@ {
        assert(ascii_lower(b@) =~= ascii_lower(a@));
    }
    if ascii_upper(a@) == b@ {
        assert(ascii_lower(b@) =~= ascii_lower(a@));
    }
    assert(ascii_lower(a@).len() == a@.len());
    assert(ascii_lower(b@).len() == b@.len());
}

/// Splitting and joining, by their results.
pub proof fn law_split_results(s: &str, seps: &[char], parts: &Vec<String>, sep: &str, r: Vec<String>, t: String)
    ensures
        call_ensures(split_on, (s, seps), r) ==> texts(r@) == split(s@, seps@),
        call_ensures(joined, (parts, sep), t) ==> t@ == join(texts(parts@), sep@),
{
}

/// Joined texts stand one behind the other with the separator between neighbours.
pub proof fn law_join(parts: Seq<Seq<char>>, sep: Seq<char>, last: Seq<char>)
    ensures
        join(Seq::empty(), sep) == Seq::<char>::empty(),
        join(seq![last], sep) == last,
        parts.len() > 0 ==> join(parts.push(last), sep) == join(parts, sep) + sep + last,
{
    assert(parts.push(last).drop_last() =~= parts);
}

/// Numbers are written with their digits, the highest first, and a minus sign where negative.
pub proof fn law_decimal(n: nat, d: nat, a: u64, b: i64, s: String, t: String)
    requires
        call_ensures(show_u64, (a,), s),
        call_ensures(show_i64, (b,), t),
        d < 10,
    ensures
        n < 10 ==> decimal(n).len() == 1 && decimal(n)[0] as u32 == 48 + n,
        n > 0 ==> decimal(10 * n + d) == decimal(n) + decimal(d),
        s@ == decimal(a as nat),
        b >= 0 ==> t@ == decimal(b as nat),
        b < 0 ==> t@ == seq!['-'] + decimal((-b) as nat),
{
    if n > 0 {
        assert((10 * n + d) / 10 == n && (10 * n + d) % 10 == d);
        assert(decimal(10 * n + d) =~= decimal(n) + decimal(d));
    }
    assert(decimal_int(b as int) =~= if b < 0 {
        seq!['-'] + decimal((-b) as nat)
    } else {
        decimal(b as nat)
    });
}

/// A text is cut into full pieces and a rest, and nothing of it is lost.
pub proof fn law_chunk(s: &str, max: usize, r: Vec<String>, i: int)
    requires
        call_ensures(chunk, (s, max), r),
        max > 0,
    ensures
        rejoined(texts(r@)) == s@,
        s@.len() <= max ==> r@.len() == 1 && r@[0]@ == s@,
        s@.len() > max ==> r@[0]@ == s@.take(max as int),
        0 <= i < r@.len() ==> r@[i]@.len() <= max,
{
    law_chunks_keep_text(s@, max as int);
    assert(texts(r@).len() == r@.len());
    if r@.len() > 0 {
        assert(texts(r@)[0] == r@[0]@);
    }
    if 0 <= i < r@.len() {
        assert(texts(r@)[i] == r@[i]@);
    }
}

/// Pieces put together again are the pieces one behind the other.
pub proof fn law_rejoined(a: Seq<char>, rest: Seq<Seq<char>>)
    ensures
        rejoined(Seq::empty()) == Seq::<char>::empty(),
        rejoined(seq![a] + rest) == a + rejoined(rest),
{
    assert((seq![a] + rest).drop_first() =~= rest);
}

/// The sender's label is the one that the laws on labels speak of.
pub proof fn law_sender_label(
    msg: &MessageEntity,
    members: &Vec<MemberEntity>,
    me: Option<&str>,
    show_phone: bool,
    r: String,
)
    requires
        call_ensures(sender_label, (msg, members, me, show_phone), r),
    ensures
        me matches Some(u) ==> r@ == label_of(msg.sender_id@, members@, Some(u@), show_phone),
        me is None ==> r@ == label_of(msg.sender_id@, members@, None, show_phone),
{
}

/// An inbound message is the sender in bold above the text, and in a chat without topics the
/// group's name in front; names and text cannot bring markup of their own.
pub proof fn law_render_inbound(label: &str, body: &str, group: Option<&str>, r: String)
    requires
        call_ensures(render_inbound, (label, body, group), r),
    ensures
        group is None ==> r@ == "<b>"@ + escaped(label@) + "</b>\n"@ + escaped(body@),
        group matches Some(g) ==> r@ == "<i>["@ + escaped(g@) + "]</i>\n"@ + "<b>"@ + escaped(label@)
            + "</b>\n"@ + escaped(body@),
{
    if group is None {
        assert(r@ =~= "<b>"@ + escaped(label@) + "</b>\n"@ + escaped(body@));
    }
}

/// Messages are forwarded for a group that is known and not deleted, and that has a conversation or
/// may get one.
pub proof fn law_forwards(group: &Option<GroupEntity>, auto: bool, mapped: bool, r: bool)
    requires
        call_ensures(forwards, (group, auto, mapped), r),
    ensures
        *group is None ==> !r,
        *group matches Some(g) ==> (g.is_deleted ==> !r) && (!auto && !mapped ==> !r) && (
        !g.is_deleted && (auto || mapped) ==> r),
{
}

/// What an outage left behind are the messages above the bookmark that still have their text; a
/// closed conversation has nothing left behind.
pub proof fn law_leftovers(conv: &Conversation, thread: Vec<MessageEntity>, r: Vec<MessageEntity>, m: MessageEntity)
    requires
        call_ensures(leftovers, (conv, thread), r),
    ensures
        conv.closed ==> r@.len() == 0,
        !conv.closed ==> (r@.contains(m) <==> thread@.contains(m) && m.seq > conv.last_forwarded_seq
            && m.body@.len() > 0),
{
    if !conv.closed {
        let p = |x: MessageEntity| crate::bridge::forward::left_behind(x, conv.last_forwarded_seq);
        if thread@.contains(m) && p(m) {
            let k = choose|k: int| 0 <= k < thread@.len() && thread@[k] == m;
            lemma_filter_has(thread@, p, k);
        }
        if thread@.filter(p).contains(m) {
            lemma_filter_from(thread@, p, m);
        }
    }
}

/// What can be imported are the messages that still have their text.
pub proof fn law_history_of(thread: Vec<MessageEntity>, r: Vec<MessageEntity>, m: MessageEntity)
    requires
        call_ensures(history_of, (thread,), r),
    ensures
        r@.contains(m) <==> thread@.contains(m) && m.body@.len() > 0,
{
    let p = |x: MessageEntity| x.body@.len() > 0;
    if thread@.contains(m) && p(m) {
        let k = choose|k: int| 0 <= k < thread@.len() && thread@[k] == m;
        lemma_filter_has(thread@, p, k);
    }
    if thread@.filter(p).contains(m) {
        lemma_filter_from(thread@, p, m);
    }
}

/// A new conversation's bookmark stands right before the history that it imports, else at the
/// newest message, and never under zero.
pub proof fn law_bookmark(history: &Vec<MessageEntity>, max: Option<i64>, r: i64)
    requires
        call_ensures(bookmark, (history, max), r),
    ensures
        history@.len() > 0 && history@[0].seq >= 1 ==> r == history@[0].seq - 1,
        history@.len() > 0 && history@[0].seq < 1 ==> r == 0,
        history@.len() == 0 && max is None ==> r == 0,
        history@.len() == 0 && max is Some && max->0 >= 0 ==> r == max->0,
        r >= 0,
{
}

/// Only a message above the bookmark is looked up.
pub proof fn law_lookup_due(conv: &Conversation, m: &MessageEntity, r: bool)
    requires
        call_ensures(lookup_due, (conv, m), r),
    ensures
        m.seq > conv.last_forwarded_seq ==> r,
        m.seq <= conv.last_forwarded_seq ==> !r,
{
}

/// The plan of a forwarding is the one that the laws on forwarding speak of.
pub proof fn law_plan_forward(
    conv: &Conversation,
    messages: Vec<MessageEntity>,
    known: &Vec<String>,
    members: &Vec<MemberEntity>,
    me: &str,
    show_phone: bool,
    plan: ForwardPlan,
)
    requires
        call_ensures(plan_forward, (conv, messages, known, members, me, show_phone), plan),
    ensures
        planned(*conv, messages@, texts(known@), members@, me@, show_phone, plan),
{
}

/// A search starts with nothing found and nothing asked, and its pages are those that the laws on
/// searching speak of.
pub proof fn law_search(needle: &str, limit: u32, s: Search, page: MessagesPage, q: Option<MessagesQuery>)
    ensures
        call_ensures(Search::start, (needle, limit), s) ==> s.limit == limit && s.before is None
            && s.fetched == 0 && !s.over && s.hits@.len() == 0,
        call_ensures(Search::next_query, (&s,), q) ==> q == page_asked(s),
        forall|x: &mut Search|
            x.fetched + page.items@.len() <= u64::MAX && #[trigger] call_ensures(
                Search::take_page,
                (x, page),
                (),
            ) ==> page_taken(*x, *final(x), page),
{
}

/// What a search gives are its hits, in the order of the group.
pub proof fn law_search_result(s: Search, r: Vec<MessageDto>, m: MessageDto)
    requires
        call_ensures(Search::finish, (s,), r),
    ensures
        r@.contains(m) <==> s.hits@.contains(m),
        r@.len() == s.hits@.len(),
{
    crate::sorting::law_arranged(s.hits@);
}

/// The outbox's steps are those that the laws on the outbox speak of.
pub proof fn law_outbox_steps(
    row: OutboxEntity,
    reply: Result<MessageDto, AppError>,
    now: i64,
    ev: Option<OutboxEvent>,
    c: Claim,
    step: Step,
    rest: Option<u64>,
    after: Step,
)
    ensures
        forall|store: &mut LocalStore|
            store.wf() && #[trigger] call_ensures(settle, (store, row, reply, now), ev) ==> settled(
                *store,
                *final(store),
                row,
                reply,
                now,
                ev,
            ),
        forall|store: &mut LocalStore|
            store.wf() && #[trigger] call_ensures(claim, (store, now), c) ==> claimed(
                *store,
                *final(store),
                now,
                c,
            ),
        call_ensures(rest_after, (step, now), rest) ==> rest == rest_ms(step, now),
        call_ensures(step_after_failure, (now,), after) && now <= i64::MAX - 15_000 ==> after
            == Step::WaitUntil((now + 15_000) as i64),
{
}

/// The answer to a command is reported under the id of its message, and the message leaves the
/// outbox.
pub proof fn law_command_answered(row: OutboxEntity, reply: CommandReply, ev: OutboxEvent)
    ensures
        forall|store: &mut LocalStore|
            store.wf() && #[trigger] call_ensures(settle_command, (store, row, reply), ev) ==> {
                &&& ev == (OutboxEvent::Answered { client_message_id: row.client_message_id, reply })
                &&& final(store).outbox_rows@ == without_row(
                    store.outbox_rows@,
                    row.client_message_id@,
                )
                &&& final(store).message_rows == store.message_rows
            },
{
}

/// Batches and group events are taken in as the laws on them say.
pub proof fn law_engine_steps(
    group: &str,
    batch: Vec<MessageEntity>,
    way: AckVia,
    fetch: GroupFetch,
    now: i64,
    a: Applied,
    me: Option<&str>,
    refresh: bool,
    ge: GroupEvent,
    r: Result<AfterGroupEvent, AppError>,
)
    ensures
        forall|store: &mut LocalStore|
            store.wf() && #[trigger] call_ensures(
                apply_incoming,
                (store, group, batch, way, fetch, now),
                a,
            ) ==> applied(*store, *final(store), group@, batch@, way, fetch, now, a),
        forall|store: &mut LocalStore|
            store.wf() && #[trigger] call_ensures(
                apply_group_event,
                (store, me, refresh, ge, now),
                r,
            ) ==> event_applied(
                *store,
                *final(store),
                match me {
                    Some(u) => Some(u@),
                    None => None,
                },
                refresh,
                ge,
                now,
                r,
            ),
{
}

/// The messages that wait for members are those that the laws on them speak of.
pub proof fn law_waiting_list(rows: &Vec<OutboxEntity>, r: Vec<String>)
    requires
        call_ensures(waiting_for_members, (rows,), r),
    ensures
        texts(r@) == too_small_ids(rows@),
{
}

proof fn lemma_all_due(rows: Seq<OutboxEntity>, ids: Seq<Seq<char>>, now: i64, i: int)
    requires
        outbox_unique(rows),
        0 <= i < rows.len(),
    ensures
        all_due_again(rows, ids, now).len() == rows.len(),
        outbox_unique(all_due_again(rows, ids, now)),
        forall|k: int|
            0 <= k < rows.len() ==> (#[trigger] all_due_again(
                rows,
                ids,
                now,
            )[k]).client_message_id == rows[k].client_message_id,
        all_due_again(rows, ids, now)[i] == (if ids.contains(rows[i].client_message_id@)
            && rows[i].state != OutboxState::Confirmed {
            OutboxEntity {
                state: OutboxState::Pending,
                error_code: None,
                next_attempt_at: Some(now),
                ..rows[i]
            }
        } else {
            rows[i]
        }),
    decreases ids.len(),
{
    if ids.len() > 0 {
        let front = ids.drop_last();
        lemma_all_due(rows, front, now, i);
        let mid = all_due_again(rows, front, now);
        let all = all_due_again(rows, ids, now);
        lemma_outbox_pos(mid, ids.last());
        lemma_only_row(mid, ids.last(), i);
        assert(ids == front.push(ids.last()));
        let id = rows[i].client_message_id@;
        if front.contains(id) {
            let k = choose|k: int| 0 <= k < front.len() && front[k] == id;
            assert(ids[k] == id);
        }
        if ids.contains(id) && !front.contains(id) {
            let k = choose|k: int| 0 <= k < ids.len() && ids[k] == id;
            if k < front.len() {
                assert(front[k] == id);
            }
        }
        if ids.last() == id {
            assert(ids[ids.len() - 1] == id);
        }
        assert forall|k: int| 0 <= k < rows.len() implies (#[trigger] all[k]).client_message_id
            == rows[k].client_message_id by {
            assert(mid[k].client_message_id == rows[k].client_message_id);
        }
        assert forall|a: int, b: int| 0 <= a < b < all.len() implies (
        #[trigger] all[a]).client_message_id@ != (#[trigger] all[b]).client_message_id@ by {
            assert(rows[a].client_message_id@ != rows[b].client_message_id@);
        }
    }
}

/// Every open message of the list is due at once, and no other message changes.
pub proof fn law_retry_all(ids: &Vec<String>, now: i64, i: int)
    ensures
        forall|store: &mut LocalStore|
            store.wf() && 0 <= i < store.outbox_rows@.len() && #[trigger] call_ensures(
                retry_all,
                (store, ids, now),
                (),
            ) ==> {
                &&& final(store).outbox_rows@.len() == store.outbox_rows@.len()
                &&& final(store).outbox_rows@[i] == (if texts(ids@).contains(
                    store.outbox_rows@[i].client_message_id@,
                ) && store.outbox_rows@[i].state != OutboxState::Confirmed {
                    OutboxEntity {
                        state: OutboxState::Pending,
                        error_code: None,
                        next_attempt_at: Some(now),
                        ..store.outbox_rows@[i]
                    }
                } else {
                    store.outbox_rows@[i]
                })
            },
{
    assert forall|store: &mut LocalStore|
        store.wf() && 0 <= i < store.outbox_rows@.len() && #[trigger] call_ensures(
            retry_all,
            (store, ids, now),
            (),
        ) implies {
        &&& final(store).outbox_rows@.len() == store.outbox_rows@.len()
        &&& final(store).outbox_rows@[i] == (if texts(ids@).contains(
            store.outbox_rows@[i].client_message_id@,
        ) && store.outbox_rows@[i].state != OutboxState::Confirmed {
            OutboxEntity {
                state: OutboxState::Pending,
                error_code: None,
                next_attempt_at: Some(now),
                ..store.outbox_rows@[i]
            }
        } else {
            store.outbox_rows@[i]
        })
    } by {
        lemma_all_due(store.outbox_rows@, texts(ids@), now, i);
    }
}

/// Why a message was not sent, by the code of the refusal.
pub proof fn law_rejection_reason(code: &str, group: &Option<GroupDto>, r: String)
    requires
        call_ensures(rejection_reason, (code, group), r),
    ensures
        code@ == "not-found"@ ==> r@ == "the group no longer exists"@,
        code@ == "unauthorized"@ || code@ == "device-blocked"@ ==> r@
            == "your session expired; use /reconnect"@,
        (code@ == "forbidden"@ || code@ == "posting-not-allowed"@ || code@ == "admin-required"@) && (
        *group is None || (*group matches Some(g) && (g.limits is None || g.member_count < 0))) ==> r@
            == "you are not allowed to post in this group"@,
        code@ == "group-too-small"@ && *group is None ==> r@
            == "the group is too small to post in yet; I'll resend once more members join"@,
        code@ == "group-too-small"@ && *group is Some && (*group)->0.limits is None ==> r@
            == "Tzibbur needs "@ + decimal(3) + " members before anyone can post; the group has "@
            + decimal_int((*group)->0.member_count as int)
            + ". Add members with /add and this message will be sent automatically"@,
{
    reveal_strlit("group-too-small");
    reveal_strlit("forbidden");
    reveal_strlit("posting-not-allowed");
    reveal_strlit("adding-members-not-allowed");
    reveal_strlit("admin-required");
    reveal_strlit("leave-not-allowed");
    reveal_strlit("not-found");
    reveal_strlit("unauthorized");
    reveal_strlit("device-blocked");
    reveal_strlit("invalid-message");
    assert("unauthorized"@.len() == 12 && "device-blocked"@.len() == 14);
    assert("leave-not-allowed"@.len() == 17 && "posting-not-allowed"@.len() == 19);
    assert("adding-members-not-allowed"@.len() == 26 && "not-found"@.len() == 9);
    assert("invalid-message"@.len() == 15);
    assert("group-too-small"@[0] == 'g');
    assert("invalid-message"@[0] == 'i');
    assert("forbidden"@[0] == 'f');
    assert("not-found"@[0] == 'n');
    assert("admin-required"@[0] == 'a');
    assert("device-blocked"@[0] == 'd');
}

/// The answer to a command goes under the message that asked, into its conversation's topic; it is
/// not shown where either is unknown.
pub proof fn law_show_answer(
    reply: &CommandReply,
    map: &Option<MessageMap>,
    conv: &Option<Conversation>,
    id: Option<i32>,
    topic: Option<i32>,
    r: Option<Explanation>,
)
    requires
        call_ensures(show_answer, (reply, map, conv), r),
        call_ensures(telegram_message_of, (map,), id),
        conv matches Some(c) ==> call_ensures(Conversation::topic_id, (&c,), topic),
    ensures
        r is Some <==> id is Some && *conv is Some,
        r matches Some(e) ==> e.text == reply.text && Some(e.reply_to) == id && e.topic == topic,
        *map is None ==> id is None,
        *map matches Some(m) ==> (m.telegram_message_id is None ==> id is None),
{
}

} // verus!
