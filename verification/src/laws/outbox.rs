//! Sending: a message goes out once, is tried again while that may help, and is never lost.

use crate::backoff::law_backoff_bounds;
use crate::error::{retryable, AppError};
use crate::laws::common::lemma_only_row;
use crate::models::MessageDto;
use crate::outbox::{
    accepted, claimed, later, pause_is, rest_ms, settled, without_row, Claim, OutboxEvent, Step,
};
use crate::reconcile::ReconcilePlan;
use crate::store::{
    outgoing, queued, row_of, LocalStore, MessageEntity, OutboxEntity, OutboxState, OutgoingState,
};
use crate::store::local::{lemma_outbox_pos, outbox_pos, outbox_unique};
use crate::store::messages::{law_delivered_is_stored, storable};
use crate::store::outbox::{dispatchable, due_time, earliest, repaired, retried_at, unconfirmed_of};
use vstd::prelude::*;

verus! {

/// Errors that pass: the connection or the socket failed, the server failed, or it asked to wait.
pub open spec fn passes(e: AppError) -> bool {
    match e {
        AppError::Network { .. } => true,
        AppError::WebSocket(_) => true,
        AppError::Internal { .. } => true,
        AppError::RateLimited { .. } => true,
        AppError::Unknown { status: Some(n), .. } => 500 <= n <= 599,
        _ => false,
    }
}

/// A send that failed for a passing reason is tried again by itself: its row waits for a time that is
/// not past, at which it is due. After any other failure the row waits for nothing. Either way it
/// remains the same message, and no other row changes.
pub proof fn law_failed_send(
    s: LocalStore,
    t: LocalStore,
    row: OutboxEntity,
    e: AppError,
    now: i64,
    ev: Option<OutboxEvent>,
    i: int,
)
    requires
        s.wf(),
        settled(s, t, row, Err(e), now, ev),
        0 <= i < s.outbox_rows@.len(),
    ensures
        t.outbox_rows@.len() == s.outbox_rows@.len(),
        t.message_rows == s.message_rows,
        t.group_rows == s.group_rows,
        s.outbox_rows@[i].client_message_id@ != row.client_message_id@ ==> t.outbox_rows@[i]
            == s.outbox_rows@[i],
        s.outbox_rows@[i].state == OutboxState::Confirmed ==> t.outbox_rows@[i] == s.outbox_rows@[i],
        s.outbox_rows@[i].client_message_id@ == row.client_message_id@ && s.outbox_rows@[i].state
            != OutboxState::Confirmed ==> {
            let new = t.outbox_rows@[i];
            &&& new.state == OutboxState::Pending
            &&& new.error_code is Some
            &&& new.client_message_id == s.outbox_rows@[i].client_message_id
            &&& new.group_id == s.outbox_rows@[i].group_id
            &&& new.body == s.outbox_rows@[i].body
            &&& new.created_at == s.outbox_rows@[i].created_at
            &&& new.attempt_count >= s.outbox_rows@[i].attempt_count
            &&& passes(e) ==> {
                &&& new.next_attempt_at matches Some(at) && at >= now && dispatchable(
                    new,
                    at,
                    i64::MIN,
                )
                &&& ev matches Some(OutboxEvent::Rescheduled { client_message_id, next_at, .. })
                    && client_message_id@ == row.client_message_id@ && new.next_attempt_at == Some(
                    next_at,
                )
            }
            &&& !passes(e) ==> {
                &&& new.next_attempt_at is None
                &&& outgoing(new) == OutgoingState::Failed
                &&& ev matches Some(OutboxEvent::Rejected { client_message_id, .. })
                    && client_message_id@ == row.client_message_id@
            }
        },
{
    lemma_only_row(s.outbox_rows@, row.client_message_id@, i);
    lemma_outbox_pos(s.outbox_rows@, row.client_message_id@);
    assert(retryable(e) == passes(e));
}

/// The pause before a send is tried again: what the server asked for, else between one second and
/// five minutes.
pub proof fn law_pause_before_retry(
    s: LocalStore,
    t: LocalStore,
    row: OutboxEntity,
    e: AppError,
    now: i64,
    ev: Option<OutboxEvent>,
)
    requires
        settled(s, t, row, Err(e), now, ev),
        passes(e),
        now < i64::MAX - 300_000,
    ensures
        ev matches Some(OutboxEvent::Rescheduled { next_at, .. }) && match e {
            AppError::RateLimited { retry_after_seconds: Some(secs), .. } => next_at == (if now
                + secs * 1000 > i64::MAX {
                i64::MAX as int
            } else {
                now + secs * 1000
            }),
            _ => now + 1_000 <= next_at <= now + 300_000,
        },
{
    assert(retryable(e));
    law_backoff_bounds(row.attempt_count as u32 as nat);
    let next_at = (ev->0)->next_at;
    let ms = choose|ms: int|
        #![trigger pause_is(e, row.attempt_count, ms)]
        ms >= 0 && pause_is(e, row.attempt_count, ms) && next_at == later(now, ms as nat);
}

/// What the server accepted is marked as sent under the server's id and place, is not sent again,
/// and its message is in the cache.
pub proof fn law_accepted_send(
    s: LocalStore,
    t: LocalStore,
    row: OutboxEntity,
    msg: MessageDto,
    now: i64,
    ev: Option<OutboxEvent>,
    i: int,
    later_on: i64,
    stale: i64,
)
    requires
        s.wf(),
        settled(s, t, row, Ok(msg), now, ev),
        0 <= i < s.outbox_rows@.len(),
        s.outbox_rows@[i].client_message_id@ == row.client_message_id@,
    ensures
        t.outbox_rows@.len() == s.outbox_rows@.len(),
        t.outbox_rows@[i].client_message_id == s.outbox_rows@[i].client_message_id,
        t.outbox_rows@[i].body == s.outbox_rows@[i].body,
        t.outbox_rows@[i].state == OutboxState::Confirmed,
        t.outbox_rows@[i].confirmed_message_id == Some(msg.id),
        t.outbox_rows@[i].confirmed_seq == Some(msg.seq),
        t.outbox_rows@[i].error_code is None,
        outgoing(t.outbox_rows@[i]) == OutgoingState::Sent,
        !dispatchable(t.outbox_rows@[i], later_on, stale),
        ev matches Some(OutboxEvent::Confirmed { client_message_id, message })
            && client_message_id@ == row.client_message_id@ && message == msg,
{
    let id = row.client_message_id@;
    lemma_only_row(s.outbox_rows@, id, i);
    crate::outbox::law_accepted_is_confirmed(s, t, row, msg, now, ev, later_on);
    let (m, plan) = choose|m: MessageEntity, plan: ReconcilePlan| #[trigger]
        accepted(s, t, row, msg, m, plan) && row_of(msg, row.group_id@, now, m);
    lemma_only_row(s.outbox_rows@, id, i);
    lemma_echoed(s.outbox_rows@, plan.echo_confirmations@);
    let echoed = crate::store::messages::echoes_confirmed(
        s.outbox_rows@,
        plan.echo_confirmations@,
    );
    lemma_outbox_pos(echoed, id);
    lemma_outbox_pos(t.outbox_rows@, id);
    let q = outbox_pos(echoed, id);
    assert(q == i) by {
        if q < i {
            assert(echoed[q].client_message_id == s.outbox_rows@[q].client_message_id);
            lemma_only_row(s.outbox_rows@, id, q);
        }
        if i < q {
            assert(echoed[i].client_message_id@ == id);
        }
    }
}

proof fn lemma_echoed(rows: Seq<OutboxEntity>, echoes: Seq<crate::reconcile::EchoConfirmation>)
    ensures
        crate::store::messages::echoes_confirmed(rows, echoes).len() == rows.len(),
        forall|i: int|
            0 <= i < rows.len() ==> {
                let e = #[trigger] crate::store::messages::echoes_confirmed(rows, echoes)[i];
                &&& e.client_message_id == rows[i].client_message_id
                &&& e.group_id == rows[i].group_id
                &&& e.body == rows[i].body
                &&& e.created_at == rows[i].created_at
                &&& rows[i].state == OutboxState::Confirmed ==> e.state == OutboxState::Confirmed
            },
    decreases echoes.len(),
{
    if echoes.len() > 0 {
        lemma_echoed(rows, echoes.drop_last());
        lemma_outbox_pos(
            crate::store::messages::echoes_confirmed(rows, echoes.drop_last()),
            echoes.last().client_message_id@,
        );
    }
}

/// An accepted message that names the row's group, or none, can be found in the cache afterwards,
/// by its id or by its place in the group. An id stands for one message of one group.
pub proof fn law_accepted_send_is_cached(
    s: LocalStore,
    t: LocalStore,
    row: OutboxEntity,
    msg: MessageDto,
    now: i64,
    ev: Option<OutboxEvent>,
)
    requires
        settled(s, t, row, Ok(msg), now, ev),
        msg.group_id matches Some(g) ==> g@ == row.group_id@,
        forall|r: int|
            0 <= r < s.message_rows@.len() && (#[trigger] s.message_rows@[r]).id@ == msg.id@
                ==> s.message_rows@[r].group_id@ == row.group_id@,
    ensures
        exists|r: int|
            0 <= r < t.message_rows@.len() && ((#[trigger] t.message_rows@[r]).id@ == msg.id@ || (
            t.message_rows@[r].group_id@ == row.group_id@ && t.message_rows@[r].seq == msg.seq)),
{
    let (m, plan) = choose|m: MessageEntity, plan: ReconcilePlan| #[trigger]
        accepted(s, t, row, msg, m, plan) && row_of(msg, row.group_id@, now, m);
    law_delivered_is_stored(
        s.message_rows@,
        row.group_id@,
        seq![m],
        unconfirmed_of(s.outbox_rows@, row.group_id@),
        plan,
        0,
    );
    assert(seq![m][0] == m);
    assert(!storable(t.message_rows@, m));
}

/// A row is taken only when its turn has come: it is queued and its time has come, or its send has
/// been without an answer for two minutes. It is the oldest of these, and it alone is marked as being
/// sent.
pub proof fn law_claimed_row(s: LocalStore, t: LocalStore, now: i64, e: OutboxEntity, i: int)
    requires
        s.wf(),
        claimed(s, t, now, Claim::Send(e)),
        now >= i64::MIN + 120_000,
        0 <= i < s.outbox_rows@.len(),
    ensures
        s.outbox_rows@.contains(e),
        e.state == OutboxState::Pending && e.next_attempt_at is None && e.error_code is None
            || e.state == OutboxState::Pending && (e.next_attempt_at matches Some(at) && at <= now)
            || e.state == OutboxState::InFlight && (e.last_attempt_at matches Some(at) ==> at
            + 120_000 <= now),
        s.outbox_rows@[i].state == OutboxState::Pending && s.outbox_rows@[i].next_attempt_at is None
            && s.outbox_rows@[i].error_code is None ==> e.created_at <= s.outbox_rows@[i].created_at,
        s.outbox_rows@[i].state == OutboxState::Pending && (s.outbox_rows@[i].next_attempt_at
            matches Some(at) && at <= now) ==> e.created_at <= s.outbox_rows@[i].created_at,
        t.outbox_rows@.len() == s.outbox_rows@.len(),
        t.outbox_rows@[i] == (if s.outbox_rows@[i] == e {
            OutboxEntity { state: OutboxState::InFlight, last_attempt_at: Some(now), ..e }
        } else {
            s.outbox_rows@[i]
        }),
        t.message_rows == s.message_rows,
{
    let rows = s.outbox_rows@;
    let k = choose|k: int| 0 <= k < rows.len() && rows[k] == e;
    lemma_only_row(rows, e.client_message_id@, k);
    lemma_only_row(rows, e.client_message_id@, i);
}

proof fn lemma_earliest(rows: Seq<OutboxEntity>, now: i64, i: int)
    requires
        0 <= i < rows.len(),
        due_time(rows[i], now) is Some,
    ensures
        earliest(rows, now) matches Some(at) && at <= due_time(rows[i], now)->0,
    decreases rows.len(),
{
    if i < rows.len() - 1 {
        lemma_earliest(rows.drop_last(), now, i);
    }
}

proof fn lemma_earliest_origin(rows: Seq<OutboxEntity>, now: i64) -> (i: int)
    requires
        earliest(rows, now) is Some,
    ensures
        0 <= i < rows.len(),
        due_time(rows[i], now) == earliest(rows, now),
    decreases rows.len(),
{
    if due_time(rows.last(), now) == earliest(rows, now) {
        rows.len() - 1
    } else {
        lemma_earliest_origin(rows.drop_last(), now)
    }
}

/// The dispatcher rests only when no row is due, and wakes in time: not after the time that any row
/// waits for, nor after a send has been without an answer for two minutes. When it rests for good,
/// nothing waits.
pub proof fn law_dispatcher_rests(s: LocalStore, t: LocalStore, now: i64, step: Step, i: int)
    requires
        claimed(s, t, now, Claim::Rest(step)),
        i64::MIN + 120_000 <= now < i64::MAX - 120_000,
        0 <= i < s.outbox_rows@.len(),
    ensures
        t == s,
        step != Step::Processed,
        s.outbox_rows@[i].state == OutboxState::Pending && s.outbox_rows@[i].next_attempt_at is None
            ==> s.outbox_rows@[i].error_code is Some,
        s.outbox_rows@[i].state == OutboxState::Pending && s.outbox_rows@[i].next_attempt_at is Some
            ==> s.outbox_rows@[i].next_attempt_at->0 > now && (step matches Step::WaitUntil(at)
            && at <= s.outbox_rows@[i].next_attempt_at->0),
        s.outbox_rows@[i].state == OutboxState::InFlight ==> (s.outbox_rows@[i].last_attempt_at
            matches Some(began) && began + 120_000 > now && (began <= now ==> (step
            matches Step::WaitUntil(at) && at <= began + 120_000))),
        step matches Step::WaitUntil(at) ==> at > now,
{
    let rows = s.outbox_rows@;
    assert(!dispatchable(rows[i], now, crate::outbox::stale_before(now)));
    if due_time(rows[i], now) is Some {
        lemma_earliest(rows, now, i);
    }
    if earliest(rows, now) is Some {
        let k = lemma_earliest_origin(rows, now);
        assert(!dispatchable(rows[k], now, crate::outbox::stale_before(now)));
    }
}

/// A message that was just queued is due, carries the text for its group, and waits to be sent.
pub proof fn law_queued_is_due(
    e: OutboxEntity,
    group: Seq<char>,
    body: Seq<char>,
    now: i64,
    at: i64,
    stale: i64,
)
    requires
        queued(e, group, body, now),
    ensures
        dispatchable(e, at, stale),
        e.group_id@ == group,
        e.body@ == body,
        e.created_at == now,
        e.state == OutboxState::Pending,
        e.confirmed_message_id is None,
        outgoing(e) == OutgoingState::Pending,
{
}

/// A row that is retried by hand is due at once, whatever became of it before, unless it was
/// delivered. No other row changes.
pub proof fn law_retried_is_due(rows: Seq<OutboxEntity>, id: Seq<char>, now: i64, stale: i64, i: int)
    requires
        outbox_unique(rows),
        0 <= i < rows.len(),
    ensures
        retried_at(rows, id, now).len() == rows.len(),
        rows[i].client_message_id@ != id || rows[i].state == OutboxState::Confirmed ==> retried_at(
            rows,
            id,
            now,
        )[i] == rows[i],
        rows[i].client_message_id@ == id && rows[i].state != OutboxState::Confirmed ==> {
            let new = retried_at(rows, id, now)[i];
            &&& dispatchable(new, now, stale)
            &&& new.error_code is None
            &&& new.body == rows[i].body
            &&& new.client_message_id == rows[i].client_message_id
            &&& new.group_id == rows[i].group_id
        },
{
    lemma_only_row(rows, id, i);
    lemma_outbox_pos(rows, id);
}

/// The rest never outlasts the time that is waited for, nor fifteen seconds; it is cut short only
/// when that time is near.
pub proof fn law_rest_is_bounded(at: i64, now: i64)
    ensures
        rest_ms(Step::Processed, now) is None,
        rest_ms(Step::Idle, now) == Some(15_000u64),
        rest_ms(Step::WaitUntil(at), now) matches Some(ms) && {
            &&& ms <= 15_000
            &&& at >= now ==> now + ms <= at
            &&& at < now ==> ms == 0
            &&& now + ms < at ==> ms == 15_000
        },
{
}

/// A command that was answered leaves the outbox; every other row stays.
pub proof fn law_answered_command_goes(rows: Seq<OutboxEntity>, id: Seq<char>, e: OutboxEntity)
    requires
        outbox_unique(rows),
    ensures
        without_row(rows, id).contains(e) <==> rows.contains(e) && e.client_message_id@ != id,
{
    lemma_outbox_pos(rows, id);
    let p = outbox_pos(rows, id);
    let new = without_row(rows, id);
    if rows.contains(e) && e.client_message_id@ != id && p < rows.len() {
        let k = choose|k: int| 0 <= k < rows.len() && rows[k] == e;
        let i = if k < p {
            k
        } else {
            k - 1
        };
        assert(new[i] == e);
    }
    if new.contains(e) {
        let i = choose|i: int| 0 <= i < new.len() && new[i] == e;
        crate::outbox::law_command_runs_once(rows, id, i);
        let k = if p < rows.len() && i >= p {
            i + 1
        } else {
            i
        };
        assert(rows[k] == e);
    }
}

/// What was delivered is marked as delivered when the program starts again; a message is never
/// dropped or altered by it, and one that still waits goes on waiting.
pub proof fn law_repair_keeps_messages(e: OutboxEntity, now: i64)
    ensures
        repaired(e, now).client_message_id == e.client_message_id,
        repaired(e, now).group_id == e.group_id,
        repaired(e, now).body == e.body,
        e.confirmed_seq is Some ==> repaired(e, now).state == OutboxState::Confirmed,
        e.confirmed_seq is None ==> repaired(e, now).state == e.state,
        e.next_attempt_at is Some && e.confirmed_seq is None ==> repaired(e, now) == e,
{
}

} // verus!
