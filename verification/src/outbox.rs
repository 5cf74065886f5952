//! The decisions of the outbox dispatcher: it drains the outbox one row at a time, with backoff,
//! recovery of stale rows and a bounded wait between rounds.

use crate::backoff::{backoff_delay, backoff_ms};
use crate::constants::{FALLBACK_POLL, IN_FLIGHT_STALE, DEFAULT_MAX_MESSAGE};
use crate::error::{error_code, retryable, AppError};
use crate::http::CommandReply;
use crate::models::MessageDto;
use crate::numbers::{decimal, show_usize};
use crate::reconcile::{plan_is, EchoConfirmation, ReconcilePlan};
use crate::store::local::{lemma_outbox_pos, log, outbox_pos, outbox_unique};
use crate::store::messages::{
    echoes_confirmed, ids_in, seqs_in, stored_all, with_previews,
};
use crate::store::outbox::{
    bumped, confirmed_in, dispatchable, earliest, in_flight_at, outbox_note, tried_again_at,
    unconfirmed_of,
};
use crate::store::{
    queued, random_id, row_of, Change, LocalStore, MessageEntity, OutboxEntity, OutboxState,
};
use crate::text::trim;
use crate::validation::{validate_message_body, TextValidation};
use vstd::prelude::*;

verus! {

/// One iteration of the dispatch loop.
#[derive(Debug, Clone, Copy, PartialEq, Eq, Structural)]
pub enum Step {
    /// A message was dispatched; loop again immediately.
    Processed,
    /// Nothing pending; wait for a wake-up.
    Idle,
    /// Next attempt scheduled at this epoch-ms instant.
    WaitUntil(i64),
}

/// Notifications from the dispatcher.
#[derive(Debug)]
pub enum OutboxEvent {
    Confirmed { client_message_id: String, message: MessageDto },
    /// Permanent failure; the row stays failed until it is retried by hand.
    Rejected { client_message_id: String, code: String },
    /// Transient failure; tried again at `next_at`.
    Rescheduled { client_message_id: String, next_at: i64, attempt: i64, code: String },
    /// The body was an in-chat command; the server ran it and stored nothing.
    Answered { client_message_id: String, reply: CommandReply },
}

/// Code of a send whose id the server has seen before.
pub const ID_REUSED: &'static str = "client-message-id-reused";

/// The latest time before which a row in flight counts as lost.
pub open spec fn stale_before(now: i64) -> i64 {
    if now - IN_FLIGHT_STALE < i64::MIN {
        i64::MIN
    } else {
        (now - IN_FLIGHT_STALE) as i64
    }
}

/// `ms` milliseconds after `now`.
pub open spec fn later(now: i64, ms: nat) -> i64 {
    if now + ms > i64::MAX {
        i64::MAX
    } else {
        (now + ms) as i64
    }
}

fn after_ms(now: i64, ms: u64) -> (r: i64)
    ensures
        r == later(now, ms as nat),
{
    let at: i128 = now as i128 + ms as i128;
    if at > i64::MAX as i128 {
        i64::MAX
    } else {
        at as i64
    }
}

/// Queue a message for sending. The body is trimmed; an empty one and one over the limit are
/// refused and leave the store as it is.
pub fn enqueue(store: &mut LocalStore, group_id: &str, body: &str, now: i64) -> (r: Result<
    OutboxEntity,
    AppError,
>)
    requires
        old(store).wf(),
    ensures
        final(store).wf(),
        r is Ok == (0 < trim(body@).len() <= DEFAULT_MAX_MESSAGE),
        match r {
            Ok(e) => {
                &&& random_id(e.client_message_id@)
                &&& queued(e, group_id@, trim(body@), now)
                &&& final(store).outbox_rows@ == (if outbox_pos(
                    old(store).outbox_rows@,
                    e.client_message_id@,
                ) < old(store).outbox_rows@.len() {
                    old(store).outbox_rows@
                } else {
                    old(store).outbox_rows@.push(e)
                })
                &&& final(store).rest_of_outbox(*old(store))
                &&& log(final(store).changes@) == log(old(store).changes@).push(
                    Change::Outbox(group_id@),
                )
            },
            Err(e) => {
                &&& *final(store) == *old(store)
                &&& e matches AppError::InvalidInput(m) && m@ == (if trim(body@).len() == 0 {
                    "message body is empty"@
                } else {
                    "message body has "@ + decimal(trim(body@).len()) + " code points, max "@
                        + decimal(DEFAULT_MAX_MESSAGE as nat)
                })
            },
        },
{
    let text = match validate_message_body(body) {
        TextValidation::Valid { text } => text,
        TextValidation::Empty => {
            return Err(AppError::InvalidInput("message body is empty".to_owned()));
        },
        TextValidation::TooLong { count, max } => {
            let m = "message body has ".to_owned().concat(show_usize(count).as_str()).concat(
                " code points, max ",
            ).concat(show_usize(max).as_str());
            return Err(AppError::InvalidInput(m));
        },
    };
    let entity = OutboxEntity::new(group_id, text.as_str(), now);
    store.insert_outbox(&entity);
    Ok(entity)
}

/// What a round of the dispatcher begins with.
#[derive(Debug)]
pub enum Claim {
    /// Send this row, which is now marked as in flight.
    Send(OutboxEntity),
    /// Nothing is due.
    Rest(Step),
}

/// `e` is the row to send at `now`: the oldest one that is due.
pub open spec fn is_next(rows: Seq<OutboxEntity>, now: i64, e: OutboxEntity) -> bool {
    &&& rows.contains(e)
    &&& dispatchable(e, now, stale_before(now))
    &&& forall|i: int|
        0 <= i < rows.len() && dispatchable(#[trigger] rows[i], now, stale_before(now))
            ==> e.created_at <= rows[i].created_at
}

/// Nothing is due at `now`.
pub open spec fn nothing_due(rows: Seq<OutboxEntity>, now: i64) -> bool {
    forall|i: int|
        0 <= i < rows.len() ==> !dispatchable(#[trigger] rows[i], now, stale_before(now))
}

/// What a round of the dispatcher does to the store, and what it comes to.
pub open spec fn claimed(s: LocalStore, t: LocalStore, now: i64, c: Claim) -> bool {
    match c {
        Claim::Send(e) => {
            &&& is_next(s.outbox_rows@, now, e)
            &&& t.outbox_rows@ == in_flight_at(s.outbox_rows@, e.client_message_id@, now)
            &&& t.rest_of_outbox(s)
            &&& t.changes == s.changes
        },
        Claim::Rest(step) => {
            &&& nothing_due(s.outbox_rows@, now)
            &&& step == (match earliest(s.outbox_rows@, now) {
                Some(at) => Step::WaitUntil(at),
                None => Step::Idle,
            })
            &&& t == s
        },
    }
}

/// Take the next row to send, if one is due.
pub fn claim(store: &mut LocalStore, now: i64) -> (c: Claim)
    requires
        old(store).wf(),
    ensures
        final(store).wf(),
        claimed(*old(store), *final(store), now, c),
{
    let stale: i64 = if now < i64::MIN + IN_FLIGHT_STALE as i64 {
        i64::MIN
    } else {
        now - IN_FLIGHT_STALE as i64
    };
    match store.next_dispatchable(now, stale) {
        Some(row) => {
            store.mark_in_flight(row.client_message_id.as_str(), now);
            Claim::Send(row)
        },
        None => match store.earliest_next_attempt(now) {
            Some(at) => Claim::Rest(Step::WaitUntil(at)),
            None => Claim::Rest(Step::Idle),
        },
    }
}

/// The store after the server accepted a send: the message is stored like any other, and its row is
/// confirmed under the server's id and seq.
pub open spec fn accepted(
    s: LocalStore,
    t: LocalStore,
    row: OutboxEntity,
    msg: MessageDto,
    m: MessageEntity,
    plan: ReconcilePlan,
) -> bool {
    let n = t.message_rows@.len() - s.message_rows@.len();
    let echoed = echoes_confirmed(s.outbox_rows@, plan.echo_confirmations@);
    &&& plan_is(
        seq![m],
        ids_in(s.message_rows@, row.group_id@),
        seqs_in(s.message_rows@, row.group_id@),
        unconfirmed_of(s.outbox_rows@, row.group_id@),
        plan,
    )
    &&& t.message_rows@ == stored_all(s.message_rows@, plan.to_insert@)
    &&& t.outbox_rows@ == confirmed_in(echoed, row.client_message_id@, msg.id, msg.seq)
    &&& t.group_rows@ == (if n > 0 {
        with_previews(s.group_rows@, t.message_rows@, seq![row.group_id@])
    } else {
        s.group_rows@
    })
    &&& t.member_rows == s.member_rows
    &&& t.reply_rows == s.reply_rows
    &&& t.next_reply_id == s.next_reply_id
}

/// The pause after a transient failure, in milliseconds: what the server asked for, else backoff.
pub open spec fn pause_is(e: AppError, attempts: i64, ms: int) -> bool {
    match e {
        AppError::RateLimited { retry_after_seconds: Some(secs), .. } => ms == secs * 1000,
        _ => backoff_ms(attempts as u32 as nat) / 2 <= ms <= backoff_ms(attempts as u32 as nat),
    }
}

/// What the reply to a send does to the store, and what is reported.
pub open spec fn settled(
    s: LocalStore,
    t: LocalStore,
    row: OutboxEntity,
    reply: Result<MessageDto, AppError>,
    now: i64,
    ev: Option<OutboxEvent>,
) -> bool {
    let id = row.client_message_id@;
    match reply {
        Ok(msg) => {
            &&& ev == Some(
                OutboxEvent::Confirmed { client_message_id: row.client_message_id, message: msg },
            )
            &&& exists|m: MessageEntity, plan: ReconcilePlan| #[trigger]
                accepted(s, t, row, msg, m, plan) && row_of(msg, row.group_id@, now, m)
        },
        Err(e) => if e is ClientMessageIdReused {
            let p = outbox_pos(s.outbox_rows@, id);
            if p < s.outbox_rows@.len() && s.outbox_rows@[p].state == OutboxState::Confirmed {
                t == s && ev is None
            } else {
                &&& tried_again_at(s.outbox_rows@, id, None, Some(ID_REUSED@), t.outbox_rows@)
                &&& t.rest_of_outbox(s)
                &&& log(t.changes@) == outbox_note(s.outbox_rows@, id, log(s.changes@))
                &&& ev matches Some(OutboxEvent::Rejected { client_message_id, code })
                    && client_message_id == row.client_message_id && code@ == ID_REUSED@
            }
        } else if retryable(e) {
            ev matches Some(OutboxEvent::Rescheduled { client_message_id, next_at, attempt, code })
                && client_message_id == row.client_message_id && attempt == bumped(row.attempt_count)
                && code@ == error_code(e) && tried_again_at(
                s.outbox_rows@,
                id,
                Some(next_at),
                Some(error_code(e)),
                t.outbox_rows@,
            ) && t.rest_of_outbox(s) && log(t.changes@) == outbox_note(
                s.outbox_rows@,
                id,
                log(s.changes@),
            ) && exists|ms: int|
                #![trigger pause_is(e, row.attempt_count, ms)]
                ms >= 0 && pause_is(e, row.attempt_count, ms) && next_at == later(now, ms as nat)
        } else {
            &&& tried_again_at(s.outbox_rows@, id, None, Some(error_code(e)), t.outbox_rows@)
            &&& t.rest_of_outbox(s)
            &&& log(t.changes@) == outbox_note(s.outbox_rows@, id, log(s.changes@))
            &&& ev matches Some(OutboxEvent::Rejected { client_message_id, code })
                && client_message_id == row.client_message_id && code@ == error_code(e)
        },
    }
}

/// Settle a send with the server's reply, at `now`.
pub fn settle(
    store: &mut LocalStore,
    row: OutboxEntity,
    reply: Result<MessageDto, AppError>,
    now: i64,
) -> (ev: Option<OutboxEvent>)
    requires
        old(store).wf(),
    ensures
        final(store).wf(),
        settled(*old(store), *final(store), row, reply, now, ev),
{
    let id = row.client_message_id.clone();
    match reply {
        Ok(msg) => {
            let m = MessageEntity::of(&msg, row.group_id.as_str(), now);
            let ghost kept = m;
            let mut batch: Vec<MessageEntity> = Vec::new();
            batch.push(m);
            assert(batch@ =~= seq![kept]);
            let out = store.store_incoming_batch(row.group_id.as_str(), batch);
            store.confirm_sent(id.as_str(), &msg.id, msg.seq);
            assert(accepted(*old(store), *store, row, msg, kept, out.plan));
            Some(OutboxEvent::Confirmed { client_message_id: id, message: msg })
        },
        Err(e) => {
            if matches!(e, AppError::ClientMessageIdReused { .. }) {
                match store.get_outbox(id.as_str()) {
                    Some(r) => {
                        if r.state == OutboxState::Confirmed {
                            return None;
                        }
                    },
                    None => {},
                }
                store.mark_rejected(id.as_str(), ID_REUSED);
                Some(OutboxEvent::Rejected { client_message_id: id, code: ID_REUSED.to_owned() })
            } else if e.is_retryable() {
                let next_at: i64 = match e.retry_after() {
                    Some(secs) => {
                        assert(pause_is(e, row.attempt_count, secs * 1000));
                        if secs > u64::MAX / 1000 {
                            i64::MAX
                        } else {
                            after_ms(now, secs * 1000)
                        }
                    },
                    None => {
                        let ms: u64 = backoff_delay(
                            #[verifier::truncate]
                            (row.attempt_count as u32),
                        );
                        assert(pause_is(e, row.attempt_count, ms as int));
                        after_ms(now, ms)
                    },
                };
                store.reschedule(id.as_str(), next_at, Some(e.code()));
                let attempt: i64 = if row.attempt_count == i64::MAX {
                    i64::MAX
                } else {
                    row.attempt_count + 1
                };
                Some(
                    OutboxEvent::Rescheduled {
                        client_message_id: id,
                        next_at,
                        attempt,
                        code: e.code().to_owned(),
                    },
                )
            } else {
                store.mark_rejected(id.as_str(), e.code());
                Some(OutboxEvent::Rejected { client_message_id: id, code: e.code().to_owned() })
            }
        },
    }
}

/// The outbox without the row of an id.
pub open spec fn without_row(rows: Seq<OutboxEntity>, id: Seq<char>) -> Seq<OutboxEntity> {
    let p = outbox_pos(rows, id);
    if p < rows.len() {
        rows.remove(p)
    } else {
        rows
    }
}

/// Settle a send that turned out to be a command: no message comes of it, so its row goes.
pub fn settle_command(store: &mut LocalStore, row: OutboxEntity, reply: CommandReply) -> (ev:
    OutboxEvent)
    requires
        old(store).wf(),
    ensures
        final(store).wf(),
        final(store).outbox_rows@ == without_row(
            old(store).outbox_rows@,
            row.client_message_id@,
        ),
        final(store).rest_of_outbox(*old(store)),
        log(final(store).changes@) == outbox_note(
            old(store).outbox_rows@,
            row.client_message_id@,
            log(old(store).changes@),
        ),
        ev == (OutboxEvent::Answered { client_message_id: row.client_message_id, reply }),
{
    store.delete_outbox(row.client_message_id.as_str());
    OutboxEvent::Answered { client_message_id: row.client_message_id, reply }
}

/// How long the loop rests after a step, in milliseconds; no rest after a dispatched message.
pub open spec fn rest_ms(step: Step, now: i64) -> Option<u64> {
    match step {
        Step::Processed => None,
        Step::Idle => Some(FALLBACK_POLL),
        Step::WaitUntil(at) => Some(
            if at <= now {
                0
            } else if at - now >= FALLBACK_POLL {
                FALLBACK_POLL
            } else {
                (at - now) as u64
            },
        ),
    }
}

/// How long the loop rests after a step: until the next attempt, and at most the poll interval.
pub fn rest_after(step: Step, now: i64) -> (r: Option<u64>)
    ensures
        r == rest_ms(step, now),
{
    match step {
        Step::Processed => None,
        Step::Idle => Some(FALLBACK_POLL),
        Step::WaitUntil(at) => {
            if at <= now {
                Some(0)
            } else {
                let gap: i128 = at as i128 - now as i128;
                if gap >= FALLBACK_POLL as i128 {
                    Some(FALLBACK_POLL)
                } else {
                    Some(gap as u64)
                }
            }
        },
    }
}

/// The step to assume when the store could not be read.
pub fn step_after_failure(now: i64) -> (r: Step)
    ensures
        r == Step::WaitUntil(later(now, FALLBACK_POLL as nat)),
{
    Step::WaitUntil(after_ms(now, FALLBACK_POLL))
}

/// Confirming rows keeps every row in its place, and keeps what is confirmed confirmed.
proof fn lemma_echoes_keep_rows(rows: Seq<OutboxEntity>, echoes: Seq<EchoConfirmation>)
    ensures
        echoes_confirmed(rows, echoes).len() == rows.len(),
        forall|i: int|
            0 <= i < rows.len() ==> {
                let e = #[trigger] echoes_confirmed(rows, echoes)[i];
                &&& e.client_message_id == rows[i].client_message_id
                &&& rows[i].state == OutboxState::Confirmed ==> e.state == OutboxState::Confirmed
            },
    decreases echoes.len(),
{
    if echoes.len() > 0 {
        lemma_echoes_keep_rows(rows, echoes.drop_last());
        lemma_outbox_pos(
            echoes_confirmed(rows, echoes.drop_last()),
            echoes.last().client_message_id@,
        );
    }
}

/// Equal client ids sit at equal places.
proof fn lemma_same_place(a: Seq<OutboxEntity>, b: Seq<OutboxEntity>, id: Seq<char>)
    requires
        a.len() == b.len(),
        forall|i: int|
            0 <= i < a.len() ==> (#[trigger] a[i]).client_message_id == b[i].client_message_id,
    ensures
        outbox_pos(a, id) == outbox_pos(b, id),
{
    lemma_outbox_pos(a, id);
    lemma_outbox_pos(b, id);
    let p = outbox_pos(a, id);
    let q = outbox_pos(b, id);
    if p < q {
        assert(a[p].client_message_id == b[p].client_message_id);
    }
    if q < p {
        assert(a[q].client_message_id == b[q].client_message_id);
    }
}

/// A message the server accepted is confirmed under the server's id and seq, so it is never sent
/// again.
pub proof fn law_accepted_is_confirmed(
    s: LocalStore,
    t: LocalStore,
    row: OutboxEntity,
    msg: MessageDto,
    now: i64,
    ev: Option<OutboxEvent>,
    later_on: i64,
)
    requires
        settled(s, t, row, Ok(msg), now, ev),
        outbox_pos(s.outbox_rows@, row.client_message_id@) < s.outbox_rows@.len(),
    ensures
        ({
            let p = outbox_pos(t.outbox_rows@, row.client_message_id@);
            &&& p < t.outbox_rows@.len()
            &&& t.outbox_rows@[p].state == OutboxState::Confirmed
            &&& t.outbox_rows@[p].confirmed_message_id == Some(msg.id)
            &&& t.outbox_rows@[p].confirmed_seq == Some(msg.seq)
            &&& !dispatchable(t.outbox_rows@[p], later_on, stale_before(later_on))
        }),
{
    let id = row.client_message_id@;
    let (m, plan) = choose|m: MessageEntity, plan: ReconcilePlan| #[trigger]
        accepted(s, t, row, msg, m, plan) && row_of(msg, row.group_id@, now, m);
    let echoed = echoes_confirmed(s.outbox_rows@, plan.echo_confirmations@);
    lemma_echoes_keep_rows(s.outbox_rows@, plan.echo_confirmations@);
    lemma_same_place(s.outbox_rows@, echoed, id);
    lemma_outbox_pos(echoed, id);
    assert forall|i: int| 0 <= i < echoed.len() implies (#[trigger] echoed[i]).client_message_id
        == t.outbox_rows@[i].client_message_id by {}
    lemma_same_place(echoed, t.outbox_rows@, id);
}

/// A message that is tried again is the same message under the same id: no failure changes what a
/// row holds of it.
pub proof fn law_retry_keeps_message(
    s: LocalStore,
    t: LocalStore,
    row: OutboxEntity,
    e: AppError,
    now: i64,
    ev: Option<OutboxEvent>,
    i: int,
)
    requires
        settled(s, t, row, Err(e), now, ev),
        0 <= i < s.outbox_rows@.len(),
    ensures
        t.outbox_rows@.len() == s.outbox_rows@.len(),
        t.outbox_rows@[i].client_message_id == s.outbox_rows@[i].client_message_id,
        t.outbox_rows@[i].group_id == s.outbox_rows@[i].group_id,
        t.outbox_rows@[i].body == s.outbox_rows@[i].body,
        t.outbox_rows@[i].created_at == s.outbox_rows@[i].created_at,
        t.message_rows == s.message_rows,
{
    lemma_outbox_pos(s.outbox_rows@, row.client_message_id@);
}

/// A command is sent once: after its answer no row bears its id.
pub proof fn law_command_runs_once(rows: Seq<OutboxEntity>, id: Seq<char>, i: int)
    requires
        outbox_unique(rows),
        0 <= i < without_row(rows, id).len(),
    ensures
        without_row(rows, id)[i].client_message_id@ != id,
{
    lemma_outbox_pos(rows, id);
    let p = outbox_pos(rows, id);
    if p < rows.len() {
        let k = if i < p {
            i
        } else {
            i + 1
        };
        assert(without_row(rows, id)[i] == rows[k]);
        if k < p {
            assert(rows[k].client_message_id@ != rows[p].client_message_id@);
        } else {
            assert(rows[p].client_message_id@ != rows[k].client_message_id@);
        }
    }
}

/// No reply to a send takes a confirmation back.
pub proof fn law_confirmation_stays(
    s: LocalStore,
    t: LocalStore,
    row: OutboxEntity,
    reply: Result<MessageDto, AppError>,
    now: i64,
    ev: Option<OutboxEvent>,
    i: int,
)
    requires
        settled(s, t, row, reply, now, ev),
        0 <= i < s.outbox_rows@.len(),
        s.outbox_rows@[i].state == OutboxState::Confirmed,
    ensures
        i < t.outbox_rows@.len(),
        t.outbox_rows@[i].state == OutboxState::Confirmed,
        t.outbox_rows@[i].client_message_id == s.outbox_rows@[i].client_message_id,
{
    let id = row.client_message_id@;
    lemma_outbox_pos(s.outbox_rows@, id);
    match reply {
        Ok(msg) => {
            let (m, plan) = choose|m: MessageEntity, plan: ReconcilePlan| #[trigger]
                accepted(s, t, row, msg, m, plan) && row_of(msg, row.group_id@, now, m);
            let echoed = echoes_confirmed(s.outbox_rows@, plan.echo_confirmations@);
            lemma_echoes_keep_rows(s.outbox_rows@, plan.echo_confirmations@);
            lemma_outbox_pos(echoed, id);
            assert(echoed[i].state == OutboxState::Confirmed);
        },
        Err(_) => {},
    }
}

} // verus!
