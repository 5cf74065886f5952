//! The rows of the outbox table, one operation at a time.

use crate::laws::common::{lemma_filter_from, lemma_filter_has, lemma_only_row};
use crate::sorting::{key_le, law_sorting_keeps_rows, Keyed};
use crate::store::{LocalCommandReplyEntity, LocalStore, OutboxEntity, OutboxState, OutgoingState};
use crate::store::local::{lemma_outbox_pos, outbox_pos};
use crate::store::outbox::{open_rows, unconfirmed_rows};
use vstd::prelude::*;

verus! {

/// The outbox has the same rows as before but for the one at `i`, which is `e` where it has that id
/// and is open.
pub open spec fn one_row_now(s: LocalStore, t: LocalStore, id: Seq<char>, i: int, e: OutboxEntity) -> bool {
    &&& t.outbox_rows@.len() == s.outbox_rows@.len()
    &&& 0 <= i < s.outbox_rows@.len() ==> t.outbox_rows@[i] == (
    if s.outbox_rows@[i].client_message_id@ == id && s.outbox_rows@[i].state
        != OutboxState::Confirmed {
        e
    } else {
        s.outbox_rows@[i]
    })
    &&& t.group_rows == s.group_rows
    &&& t.message_rows == s.message_rows
    &&& t.member_rows == s.member_rows
}

/// A new row is queued at the end; a row whose id is known already changes nothing.
pub proof fn law_insert_outbox(e: &OutboxEntity, x: OutboxEntity)
    ensures
        forall|store: &mut LocalStore|
            store.wf() && #[trigger] call_ensures(LocalStore::insert_outbox, (store, e), ()) ==> {
                let known = exists|k: int|
                    0 <= k < store.outbox_rows@.len() && (
                    #[trigger] store.outbox_rows@[k]).client_message_id@ == e.client_message_id@;
                &&& final(store).outbox_rows@.contains(x) <==> store.outbox_rows@.contains(x) || (
                !known && x == e)
                &&& final(store).message_rows == store.message_rows
            },
{
    assert forall|store: &mut LocalStore|
        store.wf() && #[trigger] call_ensures(LocalStore::insert_outbox, (store, e), ()) implies {
        let known = exists|k: int|
            0 <= k < store.outbox_rows@.len() && (#[trigger] store.outbox_rows@[k]).client_message_id@
                == e.client_message_id@;
        &&& final(store).outbox_rows@.contains(x) <==> store.outbox_rows@.contains(x) || (!known && x
            == e)
        &&& final(store).message_rows == store.message_rows
    } by {
        let old = store.outbox_rows@;
        let new = final(store).outbox_rows@;
        lemma_outbox_pos(old, e.client_message_id@);
        if old.contains(x) {
            let k = choose|k: int| 0 <= k < old.len() && old[k] == x;
            assert(new[k] == x);
        }
        if outbox_pos(old, e.client_message_id@) >= old.len() {
            assert(new[old.len() as int] == e);
            if new.contains(x) {
                let k = choose|k: int| 0 <= k < new.len() && new[k] == x;
                if k < old.len() {
                    assert(old[k] == x);
                }
            }
        }
    }
}

/// The row for an id is the one that has it.
pub proof fn law_get_outbox(store: &LocalStore, id: &str, r: Option<OutboxEntity>, i: int)
    requires
        store.wf(),
        call_ensures(LocalStore::get_outbox, (store, id), r),
    ensures
        0 <= i < store.outbox_rows@.len() && store.outbox_rows@[i].client_message_id@ == id@ ==> r
            == Some(store.outbox_rows@[i]),
        r matches Some(e) ==> e.client_message_id@ == id@ && store.outbox_rows@.contains(e),
{
    lemma_outbox_pos(store.outbox_rows@, id@);
    if 0 <= i < store.outbox_rows@.len() {
        lemma_only_row(store.outbox_rows@, id@, i);
    }
}

proof fn lemma_open(rows: Seq<OutboxEntity>, group: Seq<char>, e: OutboxEntity)
    ensures
        unconfirmed_rows(rows, group).contains(e) <==> rows.contains(e) && e.group_id@ == group
            && e.state != OutboxState::Confirmed,
    decreases rows.len(),
{
    reveal(Seq::filter);
    if rows.len() > 0 {
        let t = rows.drop_last();
        let less = unconfirmed_rows(t, group);
        let all = unconfirmed_rows(rows, group);
        lemma_open(t, group, e);
        let last = rows.last();
        let counts = last.group_id@ == group && last.state != OutboxState::Confirmed;
        assert(all == if counts {
            less.push(last)
        } else {
            less
        });
        if rows.contains(e) && e != last {
            let k = choose|k: int| 0 <= k < rows.len() && rows[k] == e;
            assert(t[k] == e);
        }
        if t.contains(e) {
            let k = choose|k: int| 0 <= k < t.len() && t[k] == e;
            assert(rows[k] == e);
        }
        if less.contains(e) {
            let k = choose|k: int| 0 <= k < less.len() && less[k] == e;
            assert(all[k] == e);
        }
        if all.contains(e) && !(counts && e == last) {
            let k = choose|k: int| 0 <= k < all.len() && all[k] == e;
            assert(less[k] == e);
        }
        if e == last {
            assert(rows[rows.len() - 1] == e);
            if counts {
                assert(all[all.len() - 1] == e);
            }
        }
    }
}

/// The open rows of a group are those that no confirmation has reached, the oldest first.
pub proof fn law_pending_outbox(store: &LocalStore, group: &str, r: Vec<OutboxEntity>, e: OutboxEntity)
    requires
        call_ensures(LocalStore::pending_outbox, (store, group), r),
    ensures
        r@.contains(e) <==> store.outbox_rows@.contains(e) && e.group_id@ == group@ && e.state
            != OutboxState::Confirmed,
        forall|i: int, j: int|
            0 <= i < j < r@.len() ==> (#[trigger] r@[i]).created_at <= (#[trigger] r@[j]).created_at,
{
    law_sorting_keeps_rows(unconfirmed_rows(store.outbox_rows@, group@), r@, e);
    lemma_open(store.outbox_rows@, group@, e);
    assert forall|i: int, j: int| 0 <= i < j < r@.len() implies (#[trigger] r@[i]).created_at <= (
    #[trigger] r@[j]).created_at by {
        assert(key_le(r@[i].key(), r@[j].key()));
    }
}

/// The failed rows of a group were refused and wait for no further attempt.
pub proof fn law_failed_outbox(store: &LocalStore, group: &str, r: Vec<OutboxEntity>, e: OutboxEntity)
    requires
        call_ensures(LocalStore::failed_outbox, (store, group), r),
    ensures
        r@.contains(e) <==> store.outbox_rows@.contains(e) && e.group_id@ == group@ && e.state
            == OutboxState::Pending && e.error_code is Some && e.next_attempt_at is None,
        forall|i: int, j: int|
            0 <= i < j < r@.len() ==> (#[trigger] r@[i]).created_at <= (#[trigger] r@[j]).created_at,
{
    let rows = store.outbox_rows@;
    let p = |x: OutboxEntity| x.group_id@ == group@ && crate::store::outbox::is_failed(x);
    law_sorting_keeps_rows(rows.filter(p), r@, e);
    if rows.contains(e) && p(e) {
        let k = choose|k: int| 0 <= k < rows.len() && rows[k] == e;
        lemma_filter_has(rows, p, k);
    }
    if rows.filter(p).contains(e) {
        lemma_filter_from(rows, p, e);
    }
    assert forall|i: int, j: int| 0 <= i < j < r@.len() implies (#[trigger] r@[i]).created_at <= (
    #[trigger] r@[j]).created_at by {
        assert(key_le(r@[i].key(), r@[j].key()));
    }
}

/// What the user sees of a row.
pub proof fn law_outgoing(e: &OutboxEntity, r: OutgoingState)
    requires
        call_ensures(OutboxEntity::outgoing_state, (e,), r),
    ensures
        e.state == OutboxState::Confirmed ==> r == OutgoingState::Sent,
        e.state != OutboxState::Confirmed && e.error_code is Some && e.next_attempt_at is None ==> r
            == OutgoingState::Failed,
        e.state != OutboxState::Confirmed && (e.error_code is None || e.next_attempt_at is Some)
            ==> r == OutgoingState::Pending,
{
}

proof fn lemma_open_rows(rows: Seq<OutboxEntity>, e: OutboxEntity)
    ensures
        open_rows(rows.push(e)) == open_rows(rows) + (if e.state == OutboxState::Confirmed {
            0int
        } else {
            1int
        }),
        open_rows(Seq::empty()) == 0,
{
    assert(rows.push(e).drop_last() =~= rows);
}

/// An empty outbox has nothing pending, and each further row counts one until it is confirmed.
pub proof fn law_pending_count(a: &LocalStore, b: &LocalStore, e: OutboxEntity, m: usize, n: usize)
    requires
        b.outbox_rows@ == a.outbox_rows@.push(e),
        call_ensures(LocalStore::pending_count, (a,), m),
        call_ensures(LocalStore::pending_count, (b,), n),
    ensures
        a.outbox_rows@.len() == 0 ==> m == 0,
        e.state == OutboxState::Confirmed ==> n == m,
        e.state != OutboxState::Confirmed ==> n == m + 1,
{
    lemma_open_rows(a.outbox_rows@, e);
    if a.outbox_rows@.len() == 0 {
        assert(a.outbox_rows@ =~= Seq::empty());
    }
}

/// The row with the id is dropped, and no other.
pub proof fn law_delete_outbox(id: &str, e: OutboxEntity)
    ensures
        forall|store: &mut LocalStore|
            store.wf() && #[trigger] call_ensures(LocalStore::delete_outbox, (store, id), ()) ==> {
                &&& final(store).outbox_rows@.contains(e) <==> store.outbox_rows@.contains(e)
                    && e.client_message_id@ != id@
                &&& final(store).message_rows == store.message_rows
            },
{
    assert forall|store: &mut LocalStore|
        store.wf() && #[trigger] call_ensures(LocalStore::delete_outbox, (store, id), ()) implies {
        &&& final(store).outbox_rows@.contains(e) <==> store.outbox_rows@.contains(e)
            && e.client_message_id@ != id@
        &&& final(store).message_rows == store.message_rows
    } by {
        let old = store.outbox_rows@;
        let new = final(store).outbox_rows@;
        lemma_outbox_pos(old, id@);
        let p = outbox_pos(old, id@);
        if new.contains(e) {
            let i = choose|i: int| 0 <= i < new.len() && new[i] == e;
            let k = if p < old.len() && i >= p {
                i + 1
            } else {
                i
            };
            assert(old[k] == e);
            lemma_only_row(old, id@, k);
        }
        if old.contains(e) && e.client_message_id@ != id@ {
            let k = choose|k: int| 0 <= k < old.len() && old[k] == e;
            if p < old.len() {
                assert(k != p);
                let i = if k < p {
                    k
                } else {
                    k - 1
                };
                assert(new[i] == e);
            }
        }
    }
}

/// Old confirmed rows go; every open row, and every row that is not old, stays.
pub proof fn law_purge_old(before: i64, n: usize, e: OutboxEntity)
    ensures
        forall|store: &mut LocalStore|
            store.wf() && #[trigger] call_ensures(LocalStore::purge_old_confirmed, (store, before), n)
                ==> {
                &&& final(store).outbox_rows@.contains(e) <==> store.outbox_rows@.contains(e) && (
                e.state != OutboxState::Confirmed || e.created_at >= before)
                &&& n + final(store).outbox_rows@.len() == store.outbox_rows@.len()
                &&& final(store).message_rows == store.message_rows
            },
{
    assert forall|store: &mut LocalStore|
        store.wf() && #[trigger] call_ensures(
            LocalStore::purge_old_confirmed,
            (store, before),
            n,
        ) implies {
        &&& final(store).outbox_rows@.contains(e) <==> store.outbox_rows@.contains(e) && (e.state
            != OutboxState::Confirmed || e.created_at >= before)
        &&& n + final(store).outbox_rows@.len() == store.outbox_rows@.len()
        &&& final(store).message_rows == store.message_rows
    } by {
        let rows = store.outbox_rows@;
        let p = |x: OutboxEntity| !(x.state == OutboxState::Confirmed && x.created_at < before);
        if rows.contains(e) && p(e) {
            let k = choose|k: int| 0 <= k < rows.len() && rows[k] == e;
            lemma_filter_has(rows, p, k);
        }
        if rows.filter(p).contains(e) {
            lemma_filter_from(rows, p, e);
        }
    }
}

/// A row that is sent is marked with the time; confirmed rows and other rows stay.
pub proof fn law_mark_in_flight(id: &str, at: i64, i: int)
    ensures
        forall|store: &mut LocalStore|
            store.wf() && #[trigger] call_ensures(LocalStore::mark_in_flight, (store, id, at), ())
                ==> one_row_now(
                *store,
                *final(store),
                id@,
                i,
                OutboxEntity {
                    state: OutboxState::InFlight,
                    last_attempt_at: Some(at),
                    ..store.outbox_rows@[i]
                },
            ),
{
    assert forall|store: &mut LocalStore|
        store.wf() && #[trigger] call_ensures(
            LocalStore::mark_in_flight,
            (store, id, at),
            (),
        ) implies one_row_now(
        *store,
        *final(store),
        id@,
        i,
        OutboxEntity {
            state: OutboxState::InFlight,
            last_attempt_at: Some(at),
            ..store.outbox_rows@[i]
        },
    ) by {
        lemma_outbox_pos(store.outbox_rows@, id@);
        if 0 <= i < store.outbox_rows@.len() {
            lemma_only_row(store.outbox_rows@, id@, i);
        }
    }
}

/// The row that a failed attempt leaves behind: open again, one attempt more, with the code and the
/// time of the next attempt.
pub open spec fn attempt_failed(
    s: LocalStore,
    t: LocalStore,
    id: Seq<char>,
    i: int,
    code: Option<Seq<char>>,
    next: Option<i64>,
) -> bool {
    &&& t.outbox_rows@.len() == s.outbox_rows@.len()
    &&& t.message_rows == s.message_rows
    &&& 0 <= i < s.outbox_rows@.len() && (s.outbox_rows@[i].client_message_id@ != id
        || s.outbox_rows@[i].state == OutboxState::Confirmed) ==> t.outbox_rows@[i]
        == s.outbox_rows@[i]
    &&& 0 <= i < s.outbox_rows@.len() && s.outbox_rows@[i].client_message_id@ == id
        && s.outbox_rows@[i].state != OutboxState::Confirmed ==> {
        let was = s.outbox_rows@[i];
        let row = t.outbox_rows@[i];
        &&& row.state == OutboxState::Pending
        &&& row.next_attempt_at == next
        &&& code is None ==> row.error_code is None
        &&& code is Some ==> row.error_code is Some && row.error_code->0@ == code->0
        &&& was.attempt_count < i64::MAX ==> row.attempt_count == was.attempt_count + 1
        &&& row.client_message_id == was.client_message_id && row.group_id == was.group_id
            && row.body == was.body && row.created_at == was.created_at && row.last_attempt_at
            == was.last_attempt_at
    }
}

/// A refused row waits with its code for the user; nothing is scheduled.
pub proof fn law_mark_rejected(id: &str, code: &str, i: int)
    ensures
        forall|store: &mut LocalStore|
            store.wf() && #[trigger] call_ensures(LocalStore::mark_rejected, (store, id, code), ())
                ==> attempt_failed(*store, *final(store), id@, i, Some(code@), None),
{
    assert forall|store: &mut LocalStore|
        store.wf() && #[trigger] call_ensures(
            LocalStore::mark_rejected,
            (store, id, code),
            (),
        ) implies attempt_failed(*store, *final(store), id@, i, Some(code@), None) by {
        lemma_outbox_pos(store.outbox_rows@, id@);
        if 0 <= i < store.outbox_rows@.len() {
            lemma_only_row(store.outbox_rows@, id@, i);
        }
    }
}

/// A row whose attempt failed for now is due again at the given time.
pub proof fn law_reschedule(id: &str, next: i64, code: Option<&str>, i: int)
    ensures
        forall|store: &mut LocalStore|
            store.wf() && #[trigger] call_ensures(LocalStore::reschedule, (store, id, next, code), ())
                ==> attempt_failed(
                *store,
                *final(store),
                id@,
                i,
                match code {
                    Some(c) => Some(c@),
                    None => None,
                },
                Some(next),
            ),
{
    assert forall|store: &mut LocalStore|
        store.wf() && #[trigger] call_ensures(
            LocalStore::reschedule,
            (store, id, next, code),
            (),
        ) implies attempt_failed(
        *store,
        *final(store),
        id@,
        i,
        match code {
            Some(c) => Some(c@),
            None => None,
        },
        Some(next),
    ) by {
        lemma_outbox_pos(store.outbox_rows@, id@);
        if 0 <= i < store.outbox_rows@.len() {
            lemma_only_row(store.outbox_rows@, id@, i);
        }
    }
}

/// A row that the user sends again is due at once, with its code gone and its attempts kept.
pub proof fn law_retry(id: &str, now: i64, i: int)
    ensures
        forall|store: &mut LocalStore|
            store.wf() && #[trigger] call_ensures(LocalStore::retry_outbox, (store, id, now), ())
                ==> one_row_now(
                *store,
                *final(store),
                id@,
                i,
                OutboxEntity {
                    state: OutboxState::Pending,
                    error_code: None,
                    next_attempt_at: Some(now),
                    ..store.outbox_rows@[i]
                },
            ),
{
    assert forall|store: &mut LocalStore|
        store.wf() && #[trigger] call_ensures(
            LocalStore::retry_outbox,
            (store, id, now),
            (),
        ) implies one_row_now(
        *store,
        *final(store),
        id@,
        i,
        OutboxEntity {
            state: OutboxState::Pending,
            error_code: None,
            next_attempt_at: Some(now),
            ..store.outbox_rows@[i]
        },
    ) by {
        lemma_outbox_pos(store.outbox_rows@, id@);
        if 0 <= i < store.outbox_rows@.len() {
            lemma_only_row(store.outbox_rows@, id@, i);
        }
    }
}

/// A confirmation names the message and its place in the row with the id; nothing is left to send.
pub proof fn law_confirm_sent(id: &str, server: &String, seq: i64, i: int)
    ensures
        forall|store: &mut LocalStore|
            store.wf() && #[trigger] call_ensures(LocalStore::confirm_sent, (store, id, server, seq), ())
                ==> {
                &&& final(store).outbox_rows@.len() == store.outbox_rows@.len()
                &&& final(store).message_rows == store.message_rows
                &&& 0 <= i < store.outbox_rows@.len() ==> final(store).outbox_rows@[i] == (
                if store.outbox_rows@[i].client_message_id@ == id@ {
                    OutboxEntity {
                        state: OutboxState::Confirmed,
                        error_code: None,
                        next_attempt_at: None,
                        confirmed_message_id: Some(*server),
                        confirmed_seq: Some(seq),
                        ..store.outbox_rows@[i]
                    }
                } else {
                    store.outbox_rows@[i]
                })
            },
{
    assert forall|store: &mut LocalStore|
        store.wf() && #[trigger] call_ensures(
            LocalStore::confirm_sent,
            (store, id, server, seq),
            (),
        ) implies {
        &&& final(store).outbox_rows@.len() == store.outbox_rows@.len()
        &&& final(store).message_rows == store.message_rows
        &&& 0 <= i < store.outbox_rows@.len() ==> final(store).outbox_rows@[i] == (
        if store.outbox_rows@[i].client_message_id@ == id@ {
            OutboxEntity {
                state: OutboxState::Confirmed,
                error_code: None,
                next_attempt_at: None,
                confirmed_message_id: Some(*server),
                confirmed_seq: Some(seq),
                ..store.outbox_rows@[i]
            }
        } else {
            store.outbox_rows@[i]
        })
    } by {
        lemma_outbox_pos(store.outbox_rows@, id@);
        if 0 <= i < store.outbox_rows@.len() {
            lemma_only_row(store.outbox_rows@, id@, i);
        }
    }
}

/// Confirmed rows lose their text and nothing else; the text of every open row stays.
pub proof fn law_redact_outbox(n: usize, i: int)
    ensures
        forall|store: &mut LocalStore|
            store.wf() && #[trigger] call_ensures(LocalStore::redact_confirmed_outbox, (store,), n)
                ==> {
                &&& final(store).outbox_rows@.len() == store.outbox_rows@.len()
                &&& final(store).message_rows == store.message_rows
                &&& 0 <= i < store.outbox_rows@.len() ==> {
                    let was = store.outbox_rows@[i];
                    let row = final(store).outbox_rows@[i];
                    &&& was.state != OutboxState::Confirmed ==> row == was
                    &&& was.state == OutboxState::Confirmed ==> row.body@.len() == 0
                        && row.client_message_id == was.client_message_id && row.state == was.state
                        && row.confirmed_seq == was.confirmed_seq && row.confirmed_message_id
                        == was.confirmed_message_id && row.group_id == was.group_id
                }
            },
{
}

/// After a crash a row that has its place counts as confirmed, one that was given up over an
/// unreadable reply or a reused id is due again, and every other row stays.
pub proof fn law_repair(now: i64, i: int)
    ensures
        forall|store: &mut LocalStore|
            store.wf() && #[trigger] call_ensures(LocalStore::repair, (store, now), ()) ==> {
                &&& final(store).outbox_rows@.len() == store.outbox_rows@.len()
                &&& 0 <= i < store.outbox_rows@.len() ==> {
                    let was = store.outbox_rows@[i];
                    let row = final(store).outbox_rows@[i];
                    let lost = was.error_code matches Some(c) && (c@ == "json"@ || c@
                        == "client-message-id-reused"@);
                    &&& was.confirmed_seq is Some && was.state != OutboxState::Confirmed ==> row == (
                    OutboxEntity {
                        state: OutboxState::Confirmed,
                        error_code: None,
                        next_attempt_at: None,
                        ..was
                    })
                    &&& was.confirmed_seq is None && was.state == OutboxState::Pending
                        && was.next_attempt_at is None && lost ==> row == (OutboxEntity {
                        next_attempt_at: Some(now),
                        ..was
                    })
                    &&& was.confirmed_seq is None && (was.state != OutboxState::Pending
                        || was.next_attempt_at is Some || !lost) ==> row == was
                    &&& was.state == OutboxState::Confirmed ==> row == was
                }
            },
{
}

/// The replies to a group's commands are listed in the order in which they came.
pub proof fn law_command_replies(
    store: &LocalStore,
    group: &str,
    r: Vec<LocalCommandReplyEntity>,
    e: LocalCommandReplyEntity,
)
    requires
        call_ensures(LocalStore::command_replies, (store, group), r),
    ensures
        r@.contains(e) <==> store.reply_rows@.contains(e) && e.group_id@ == group@,
        forall|i: int, j: int|
            0 <= i < j < r@.len() ==> (#[trigger] r@[i]).created_at <= (#[trigger] r@[j]).created_at,
{
    let rows = store.reply_rows@;
    let p = |x: LocalCommandReplyEntity| x.group_id@ == group@;
    law_sorting_keeps_rows(rows.filter(p), r@, e);
    if rows.contains(e) && p(e) {
        let k = choose|k: int| 0 <= k < rows.len() && rows[k] == e;
        lemma_filter_has(rows, p, k);
    }
    if rows.filter(p).contains(e) {
        lemma_filter_from(rows, p, e);
    }
    assert forall|i: int, j: int| 0 <= i < j < r@.len() implies (#[trigger] r@[i]).created_at <= (
    #[trigger] r@[j]).created_at by {
        assert(key_le(r@[i].key(), r@[j].key()));
    }
}

} // verus!
