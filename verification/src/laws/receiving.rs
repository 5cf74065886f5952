//! Batches of messages: what they leave in the cache, what is reported, and what is acknowledged.

use crate::laws::cache::law_storing_keeps_and_adds;
use crate::laws::common::{lemma_filter_from, lemma_filter_has};
use crate::reconcile::{
    echo_views, echoes_of, fresh, fresh_messages, is_echo, law_no_stored_message_again, law_top_seq,
    lemma_kept_origin, new_id, new_ids_of, reconcile, EchoConfirmation, ReconcilePlan,
    ReconcileState,
};
use crate::sorting::law_sorting_keeps_rows;
use crate::store::{LocalStore, MessageEntity, OutboxEntity, OutboxState};
use crate::store::local::{lemma_outbox_pos, outbox_pos, outbox_unique};
use crate::store::messages::{
    echoes_confirmed, ids_in, lemma_fresh_is_kept, lemma_ids_in, lemma_seqs_in, seqs_in,
};
use crate::store::outbox::unconfirmed_of;
use crate::sync::{
    applied, batch_stored, looked_up, news_of, AckVia, Applied, GroupFetch, SyncEvent,
};
use crate::text::texts;
use vstd::prelude::*;

verus! {

/// The client id of a row that the server has not confirmed yet.
pub open spec fn awaited(rows: Seq<OutboxEntity>, group: Seq<char>, id: Seq<char>) -> bool {
    exists|i: int|
        0 <= i < rows.len() && (#[trigger] rows[i]).client_message_id@ == id && rows[i].group_id@
            == group && rows[i].state != OutboxState::Confirmed
}

proof fn lemma_awaited(rows: Seq<OutboxEntity>, group: Seq<char>, id: Seq<char>)
    ensures
        unconfirmed_of(rows, group).contains(id) <==> awaited(rows, group, id),
    decreases rows.len(),
{
    reveal(Seq::filter);
    let all = unconfirmed_of(rows, group);
    if rows.len() > 0 {
        let t = rows.drop_last();
        let less = unconfirmed_of(t, group);
        lemma_awaited(t, group, id);
        let e = rows.last();
        let counts = e.group_id@ == group && e.state != OutboxState::Confirmed;
        assert(all =~= if counts {
            less.push(e.client_message_id@)
        } else {
            less
        });
        if less.contains(id) {
            let k = choose|k: int| 0 <= k < less.len() && less[k] == id;
            assert(all[k] == id);
            let i = choose|i: int|
                0 <= i < t.len() && (#[trigger] t[i]).client_message_id@ == id && t[i].group_id@
                    == group && t[i].state != OutboxState::Confirmed;
            assert(rows[i] == t[i]);
        }
        if counts && e.client_message_id@ == id {
            assert(all[less.len() as int] == id);
            assert(rows[rows.len() - 1] == e);
        }
        if awaited(rows, group, id) {
            let i = choose|i: int|
                0 <= i < rows.len() && (#[trigger] rows[i]).client_message_id@ == id
                    && rows[i].group_id@ == group && rows[i].state != OutboxState::Confirmed;
            if i < t.len() {
                assert(t[i] == rows[i]);
            }
        }
    }
}

proof fn lemma_new_ids(s: Seq<MessageEntity>, un: Seq<Seq<char>>, m: MessageEntity)
    requires
        s.contains(m),
        !is_echo(m, un),
    ensures
        new_ids_of(s, un).contains(m.id@),
    decreases s.len(),
{
    let t = s.drop_last();
    let k = choose|k: int| 0 <= k < s.len() && s[k] == m;
    if k < t.len() {
        assert(t[k] == m);
        lemma_new_ids(t, un, m);
        let j = choose|j: int| 0 <= j < new_ids_of(t, un).len() && new_ids_of(t, un)[j] == m.id@;
        assert(new_ids_of(s, un)[j] == m.id@);
    } else {
        assert(new_ids_of(s, un).last() == m.id@);
    }
}

proof fn lemma_new_ids_origin(s: Seq<MessageEntity>, un: Seq<Seq<char>>, id: Seq<char>)
    requires
        new_ids_of(s, un).contains(id),
    ensures
        exists|k: int| 0 <= k < s.len() && (#[trigger] s[k]).id@ == id && !is_echo(s[k], un),
    decreases s.len(),
{
    let t = s.drop_last();
    let j = choose|j: int| 0 <= j < new_ids_of(s, un).len() && new_ids_of(s, un)[j] == id;
    if j < new_ids_of(t, un).len() {
        assert(new_ids_of(t, un)[j] == id);
        lemma_new_ids_origin(t, un, id);
        let k = choose|k: int| 0 <= k < t.len() && (#[trigger] t[k]).id@ == id && !is_echo(t[k], un);
        assert(s[k] == t[k]);
    } else {
        assert(s[s.len() - 1].id@ == id);
    }
}

proof fn lemma_echo(s: Seq<MessageEntity>, un: Seq<Seq<char>>, m: MessageEntity) -> (k: int)
    requires
        s.contains(m),
        is_echo(m, un),
    ensures
        0 <= k < echoes_of(s, un).len(),
        echoes_of(s, un)[k] == (m.client_message_id->0@, m.id@, m.seq),
    decreases s.len(),
{
    let t = s.drop_last();
    let i = choose|i: int| 0 <= i < s.len() && s[i] == m;
    if i < t.len() {
        assert(t[i] == m);
        let k = lemma_echo(t, un, m);
        assert(echoes_of(s, un)[k] == echoes_of(t, un)[k]);
        k
    } else {
        echoes_of(s, un).len() - 1
    }
}

proof fn lemma_confirms(rows: Seq<OutboxEntity>, echoes: Seq<EchoConfirmation>, k: int, i: int)
    requires
        outbox_unique(rows),
        0 <= i < rows.len(),
        0 <= k < echoes.len(),
        rows[i].client_message_id@ == echoes[k].client_message_id@,
    ensures
        echoes_confirmed(rows, echoes).len() == rows.len(),
        echoes_confirmed(rows, echoes)[i].state == OutboxState::Confirmed,
    decreases echoes.len(),
{
    let t = echoes.drop_last();
    let before = echoes_confirmed(rows, t);
    lemma_keeps(rows, t);
    lemma_keeps(rows, echoes);
    let id = echoes.last().client_message_id@;
    lemma_outbox_pos(before, id);
    if k < t.len() {
        assert(t[k] == echoes[k]);
        lemma_confirms(rows, t, k, i);
    } else {
        let q = outbox_pos(before, id);
        if q < i {
            assert(before[q].client_message_id == rows[q].client_message_id);
            assert(rows[q].client_message_id@ != rows[i].client_message_id@);
        }
        if i < q {
            assert(before[i].client_message_id@ == id);
        }
    }
}

proof fn lemma_keeps(rows: Seq<OutboxEntity>, echoes: Seq<EchoConfirmation>)
    ensures
        echoes_confirmed(rows, echoes).len() == rows.len(),
        forall|i: int|
            0 <= i < rows.len() ==> {
                let e = #[trigger] echoes_confirmed(rows, echoes)[i];
                &&& e.client_message_id == rows[i].client_message_id
                &&& e.body == rows[i].body
                &&& e.group_id == rows[i].group_id
                &&& e.state == rows[i].state || e.state == OutboxState::Confirmed
            },
    decreases echoes.len(),
{
    if echoes.len() > 0 {
        lemma_keeps(rows, echoes.drop_last());
        lemma_outbox_pos(
            echoes_confirmed(rows, echoes.drop_last()),
            echoes.last().client_message_id@,
        );
    }
}

/// The message is new to the cache: nothing stored in its group has its id or its place, and neither
/// has anything before it in the batch.
pub open spec fn is_new(s: LocalStore, group: Seq<char>, batch: Seq<MessageEntity>, i: int) -> bool {
    &&& forall|k: int|
        0 <= k < s.message_rows@.len() && (#[trigger] s.message_rows@[k]).group_id@ == group
            ==> s.message_rows@[k].id@ != batch[i].id@ && s.message_rows@[k].seq != batch[i].seq
    &&& forall|k: int|
        0 <= k < i ==> (#[trigger] batch[k]).id@ != batch[i].id@ && batch[k].seq != batch[i].seq
}

proof fn lemma_is_new(s: LocalStore, group: Seq<char>, batch: Seq<MessageEntity>, i: int)
    requires
        0 <= i < batch.len(),
        is_new(s, group, batch, i),
    ensures
        fresh(batch, ids_in(s.message_rows@, group), seqs_in(s.message_rows@, group), i),
{
    lemma_ids_in(s.message_rows@, group, batch[i].id@);
    lemma_seqs_in(s.message_rows@, group, batch[i].seq);
}

/// A new message of someone else, in a cached group, is reported as new. One of the user's own that
/// was waiting for its confirmation is not: its row in the outbox is confirmed, and that is reported.
pub proof fn law_news_and_echoes(
    s: LocalStore,
    t: LocalStore,
    group: Seq<char>,
    batch: Seq<MessageEntity>,
    through: AckVia,
    fetch: GroupFetch,
    now: i64,
    a: Applied,
    i: int,
)
    requires
        s.wf(),
        applied(s, t, group, batch, through, fetch, now, a),
        crate::store::local::group_known(s.group_rows@, group),
        0 <= i < batch.len(),
        is_new(s, group, batch, i),
    ensures
        !(batch[i].client_message_id matches Some(c) && awaited(s.outbox_rows@, group, c@)) ==> (
        a.events@.len() > 0 && (a.events@.last() matches SyncEvent::NewMessages { group_id, messages }
            && group_id@ == group && messages@.contains(batch[i]))),
        batch[i].client_message_id matches Some(c) ==> (awaited(s.outbox_rows@, group, c@) ==> {
            &&& exists|k: int|
                0 <= k < a.events@.len() && (#[trigger] a.events@[k] matches SyncEvent::EchoConfirmed {
                    group_id,
                    client_message_id,
                    server_id,
                    seq,
                } && group_id@ == group && client_message_id@ == c@ && server_id@ == batch[i].id@
                    && seq == batch[i].seq)
            &&& forall|q: int|
                0 <= q < s.outbox_rows@.len() && (#[trigger] s.outbox_rows@[q]).client_message_id@
                    == c@ ==> t.outbox_rows@[q].state == OutboxState::Confirmed
        }),
{
    let mid = choose|mid: LocalStore| #[trigger]
        looked_up(s, mid, group, fetch, now) && batch_stored(mid, t, group, batch, a.outcome);
    assert(mid == s);
    let ids = ids_in(s.message_rows@, group);
    let seqs = seqs_in(s.message_rows@, group);
    let un = unconfirmed_of(s.outbox_rows@, group);
    let plan = a.outcome.plan;
    let kept = fresh_messages(batch, ids, seqs, batch.len() as int);
    let m = batch[i];
    lemma_is_new(s, group, batch, i);
    lemma_fresh_is_kept(batch, ids, seqs, batch.len() as int, i);
    law_sorting_keeps_rows(plan.to_insert@, kept, m);
    if m.client_message_id is Some {
        lemma_awaited(s.outbox_rows@, group, m.client_message_id->0@);
    }
    if !is_echo(m, un) {
        lemma_new_ids(kept, un, m);
        assert(texts(plan.new_message_ids@).contains(m.id@));
        let p = |x: MessageEntity| texts(plan.new_message_ids@).contains(x.id@);
        let k = choose|k: int| 0 <= k < plan.to_insert@.len() && plan.to_insert@[k] == m;
        lemma_filter_has(plan.to_insert@, p, k);
        assert(news_of(plan).contains(m));
    } else {
        let k = lemma_echo(kept, un, m);
        assert(echo_views(plan.echo_confirmations@)[k] == (m.client_message_id->0@, m.id@, m.seq));
        let c = m.client_message_id->0@;
        assert(crate::sync::echo_event(group, plan, k, a.events@[k]));
        assert(a.events@[k] is EchoConfirmed);
        assert forall|q: int|
            0 <= q < s.outbox_rows@.len() && (#[trigger] s.outbox_rows@[q]).client_message_id@
                == c implies t.outbox_rows@[q].state == OutboxState::Confirmed by {
            lemma_confirms(s.outbox_rows@, plan.echo_confirmations@, k, q);
        }
    }
}

/// What is reported as new comes from the batch and was not stored before; a batch that is reported
/// brings no more than that.
pub proof fn law_news_is_new(
    s: LocalStore,
    t: LocalStore,
    group: Seq<char>,
    batch: Seq<MessageEntity>,
    through: AckVia,
    fetch: GroupFetch,
    now: i64,
    a: Applied,
    m: MessageEntity,
    k: int,
)
    requires
        applied(s, t, group, batch, through, fetch, now, a),
        crate::store::local::group_known(s.group_rows@, group),
        a.events@.len() > 0,
        a.events@.last() matches SyncEvent::NewMessages { messages, .. } && messages@.contains(m),
        0 <= k < s.message_rows@.len(),
        s.message_rows@[k].group_id@ == group,
    ensures
        batch.contains(m),
        s.message_rows@[k].id@ != m.id@,
        s.message_rows@[k].seq != m.seq,
{
    let mid = choose|mid: LocalStore| #[trigger]
        looked_up(s, mid, group, fetch, now) && batch_stored(mid, t, group, batch, a.outcome);
    let plan = a.outcome.plan;
    let n = plan.echo_confirmations@.len();
    if plan.new_message_ids@.len() == 0 {
        assert(crate::sync::echo_event(group, plan, n - 1, a.events@[n - 1]));
    }
    let p = |x: MessageEntity| texts(plan.new_message_ids@).contains(x.id@);
    lemma_filter_from(plan.to_insert@, p, m);
    let q = choose|q: int| 0 <= q < plan.to_insert@.len() && plan.to_insert@[q] == m;
    law_no_stored_message_again(
        batch,
        ids_in(s.message_rows@, group),
        seqs_in(s.message_rows@, group),
        unconfirmed_of(s.outbox_rows@, group),
        plan,
        q,
    );
    lemma_ids_in(s.message_rows@, group, m.id@);
    lemma_seqs_in(s.message_rows@, group, m.seq);
}

/// A batch is acknowledged up to its last message, on the way it came, and history not at all. What
/// was in the cache stays there, and what is added comes from the batch.
pub proof fn law_batch_is_acknowledged(
    s: LocalStore,
    t: LocalStore,
    group: Seq<char>,
    batch: Seq<MessageEntity>,
    through: AckVia,
    fetch: GroupFetch,
    now: i64,
    a: Applied,
    i: int,
    m: MessageEntity,
)
    requires
        applied(s, t, group, batch, through, fetch, now, a),
        0 <= i < batch.len(),
        batch[i].seq > 0,
    ensures
        through == AckVia::Nothing ==> a.ack is None,
        through != AckVia::Nothing ==> (a.ack matches Some(seq) && seq >= batch[i].seq && exists|k: int|
            0 <= k < batch.len() && (#[trigger] batch[k]).seq == seq),
        t.message_rows@.len() >= s.message_rows@.len(),
        forall|k: int|
            0 <= k < s.message_rows@.len() ==> (#[trigger] t.message_rows@[k]) == s.message_rows@[k],
        t.message_rows@.contains(m) ==> s.message_rows@.contains(m) || batch.contains(m),
        t.member_rows == s.member_rows,
{
    law_top_seq(batch);
    if !crate::store::local::group_known(s.group_rows@, group) && fetch is Gone {
    } else {
        let mid = choose|mid: LocalStore| #[trigger]
            looked_up(s, mid, group, fetch, now) && batch_stored(mid, t, group, batch, a.outcome);
        assert(mid.message_rows@ == s.message_rows@);
        let plan = a.outcome.plan;
        law_storing_keeps_and_adds(s.message_rows@, plan.to_insert@, m);
        if plan.to_insert@.contains(m) {
            let q = choose|q: int| 0 <= q < plan.to_insert@.len() && plan.to_insert@[q] == m;
            law_no_stored_message_again(
                batch,
                ids_in(s.message_rows@, group),
                seqs_in(s.message_rows@, group),
                unconfirmed_of(mid.outbox_rows@, group),
                plan,
                q,
            );
        }
    }
}

proof fn lemma_fresh_kept(
    batch: Seq<MessageEntity>,
    ids: Seq<Seq<char>>,
    seqs: Seq<i64>,
    n: int,
    i: int,
)
    requires
        0 <= i < n <= batch.len(),
        fresh(batch, ids, seqs, i),
    ensures
        fresh_messages(batch, ids, seqs, n).contains(batch[i]),
    decreases n,
{
    let now = fresh_messages(batch, ids, seqs, n);
    if i < n - 1 {
        lemma_fresh_kept(batch, ids, seqs, n - 1, i);
        let before = fresh_messages(batch, ids, seqs, n - 1);
        let k = choose|k: int| 0 <= k < before.len() && before[k] == batch[i];
        assert(now[k] == batch[i]);
    } else {
        assert(now[now.len() - 1] == batch[i]);
    }
}

/// A message is planned where neither the cache nor an earlier message of the batch has its id or
/// its place.
pub proof fn law_fresh_is_planned(
    batch: Vec<MessageEntity>,
    state: &ReconcileState,
    plan: ReconcilePlan,
    i: int,
)
    requires
        call_ensures(reconcile, (batch, state), plan),
        0 <= i < batch@.len(),
        forall|k: int|
            0 <= k < state.existing_ids@.len() ==> (#[trigger] state.existing_ids@[k])@
                != batch@[i].id@,
        !state.existing_seqs@.contains(batch@[i].seq),
        forall|k: int|
            0 <= k < i ==> (#[trigger] batch@[k]).id@ != batch@[i].id@ && batch@[k].seq
                != batch@[i].seq,
    ensures
        plan.to_insert@.contains(batch@[i]),
{
    let ids = texts(state.existing_ids@);
    let kept = fresh_messages(batch@, ids, state.existing_seqs@, batch@.len() as int);
    if ids.contains(batch@[i].id@) {
        let k = choose|k: int| 0 <= k < ids.len() && ids[k] == batch@[i].id@;
        assert(state.existing_ids@[k]@ == batch@[i].id@);
    }
    assert(fresh(batch@, ids, state.existing_seqs@, i));
    lemma_fresh_kept(batch@, ids, state.existing_seqs@, batch@.len() as int, i);
    law_sorting_keeps_rows(plan.to_insert@, kept, batch@[i]);
}

/// Of two messages of a batch with new ids and the same place, only the first is planned.
pub proof fn law_place_taken_once(
    batch: Vec<MessageEntity>,
    state: &ReconcileState,
    plan: ReconcilePlan,
    j: int,
    i: int,
)
    requires
        call_ensures(reconcile, (batch, state), plan),
        0 <= j < i < batch@.len(),
        batch@[j].seq == batch@[i].seq,
        forall|k: int|
            0 <= k < state.existing_ids@.len() ==> (#[trigger] state.existing_ids@[k])@
                != batch@[j].id@,
        forall|k: int| 0 <= k < j ==> (#[trigger] batch@[k]).id@ != batch@[j].id@,
        forall|k: int| 0 <= k < i ==> (#[trigger] batch@[k]).id@ != batch@[i].id@,
    ensures
        !plan.to_insert@.contains(batch@[i]),
{
    let ids = texts(state.existing_ids@);
    let seqs = state.existing_seqs@;
    let n = batch@.len() as int;
    let kept = fresh_messages(batch@, ids, seqs, n);
    if plan.to_insert@.contains(batch@[i]) {
        law_sorting_keeps_rows(plan.to_insert@, kept, batch@[i]);
        let k = choose|k: int| 0 <= k < kept.len() && kept[k] == batch@[i];
        let at = lemma_kept_origin(batch@, ids, seqs, n, k);
        assert(batch@[at].id@ == batch@[i].id@);
        assert(at == i);
        if ids.contains(batch@[j].id@) {
            let q = choose|q: int| 0 <= q < ids.len() && ids[q] == batch@[j].id@;
            assert(state.existing_ids@[q]@ == batch@[j].id@);
        }
        assert(new_id(batch@, ids, j));
    }
}

} // verus!
