//! How the cache is kept: what a table holds after a deletion, what is counted, and which rows make
//! up a cache at all.

use crate::catchup::{drop_group, history_query, older_query, refresh_members, Refreshed};
use crate::error::AppError;
use crate::laws::common::lemma_only_group;
use crate::models::{
    GroupMessages, ListParams, MemberDto, MessageDto, MessagesQuery, PendingResponse,
};
use crate::reconcile::{has_text, ReconcilePlan};
use crate::socket::{DisconnectReason, SyncState};
use crate::store::{
    value_or, GroupEntity, LocalCommandReplyEntity, LocalStore, MemberEntity, MessageEntity,
    OutboxEntity, OutboxState, StoreChange,
};
use crate::store::local::{group_known, lemma_group_pos, lemma_member_row_pos, member_row_pos};
use crate::store::outbox::dispatchable;
use crate::store::schema::{migration, MigrationStep};
use crate::sync::{batch_of, MemberObservationRegistry, SyncEvent};
use crate::text::texts;
use vstd::prelude::*;

verus! {

/// Deleting a group's messages leaves those of the other groups, and no others.
pub proof fn law_delete_messages(group: &str, n: usize, m: MessageEntity)
    ensures
        forall|store: &mut LocalStore|
            store.wf() && #[trigger] call_ensures(
                LocalStore::delete_messages_for_group,
                (store, group),
                n,
            ) ==> (final(store).message_rows@.contains(m) <==> store.message_rows@.contains(m)
                && m.group_id@ != group@) && final(store).group_rows == store.group_rows
                && final(store).outbox_rows == store.outbox_rows && final(store).member_rows
                == store.member_rows && n == store.message_rows@.len()
                - final(store).message_rows@.len(),
{
    broadcast use {
        Seq::lemma_filter_contains,
        Seq::lemma_filter_contains_rev,
        Seq::lemma_filter_pred,
    };
    assert forall|store: &mut LocalStore|
        store.wf() && #[trigger] call_ensures(
            LocalStore::delete_messages_for_group,
            (store, group),
            n,
        ) implies (final(store).message_rows@.contains(m) <==> store.message_rows@.contains(m)
        && m.group_id@ != group@) && final(store).group_rows == store.group_rows && final(store).outbox_rows == store.outbox_rows && final(store).member_rows == store.member_rows && n
        == store.message_rows@.len() - final(store).message_rows@.len() by {
        if store.message_rows@.contains(m) {
            let i = choose|i: int| 0 <= i < store.message_rows@.len() && store.message_rows@[i] == m;
            assert(store.message_rows@[i] == m);
        }
    }
}

/// A message counts where it is of the group and its place is in the range.
pub proof fn law_count_between(
    a: &LocalStore,
    b: &LocalStore,
    group: &str,
    from: i64,
    to: i64,
    e: MessageEntity,
    m: usize,
    n: usize,
)
    requires
        call_ensures(LocalStore::count_between, (a, group, from, to), m),
        call_ensures(LocalStore::count_between, (b, group, from, to), n),
    ensures
        a.message_rows@.len() == 0 ==> m == 0,
        b.message_rows@ == a.message_rows@.push(e) && e.group_id@ == group@ && from <= e.seq <= to
            ==> n == m + 1,
        b.message_rows@ == a.message_rows@.push(e) && !(e.group_id@ == group@ && from <= e.seq
            <= to) ==> n == m,
{
    if b.message_rows@ == a.message_rows@.push(e) {
        assert(b.message_rows@.drop_last() =~= a.message_rows@);
    }
}

/// A member is stored in a known group, in the place of what was known; elsewhere it is refused.
pub proof fn law_upsert_member(m: &MemberEntity, r: Result<(), AppError>, i: int)
    ensures
        forall|store: &mut LocalStore|
            store.wf() && #[trigger] call_ensures(LocalStore::upsert_member, (store, m), r) ==> {
                &&& r is Ok <==> exists|k: int|
                    0 <= k < store.group_rows@.len() && (#[trigger] store.group_rows@[k]).id@
                        == m.group_id@
                &&& r is Err ==> *final(store) == *store
                &&& 0 <= i < store.member_rows@.len() && (store.member_rows@[i].group_id@
                    != m.group_id@ || store.member_rows@[i].user_id@ != m.user_id@)
                    ==> final(store).member_rows@[i] == store.member_rows@[i]
                &&& r is Ok ==> exists|k: int|
                    {
                        &&& 0 <= k < final(store).member_rows@.len()
                        &&& (#[trigger] final(store).member_rows@[k]).group_id@ == m.group_id@
                        &&& final(store).member_rows@[k].user_id@ == m.user_id@
                        &&& final(store).member_rows@[k].role == m.role
                    }
                &&& final(store).group_rows == store.group_rows
                &&& final(store).message_rows == store.message_rows
                &&& final(store).outbox_rows == store.outbox_rows
            },
{
    assert forall|store: &mut LocalStore|
        store.wf() && #[trigger] call_ensures(LocalStore::upsert_member, (store, m), r) implies {
        &&& r is Ok <==> exists|k: int|
            0 <= k < store.group_rows@.len() && (#[trigger] store.group_rows@[k]).id@ == m.group_id@
        &&& r is Err ==> *final(store) == *store
        &&& 0 <= i < store.member_rows@.len() && (store.member_rows@[i].group_id@ != m.group_id@
            || store.member_rows@[i].user_id@ != m.user_id@) ==> final(store).member_rows@[i]
            == store.member_rows@[i]
        &&& r is Ok ==> exists|k: int|
            {
                &&& 0 <= k < final(store).member_rows@.len()
                &&& (#[trigger] final(store).member_rows@[k]).group_id@ == m.group_id@
                &&& final(store).member_rows@[k].user_id@ == m.user_id@
                &&& final(store).member_rows@[k].role == m.role
            }
        &&& final(store).group_rows == store.group_rows
        &&& final(store).message_rows == store.message_rows
        &&& final(store).outbox_rows == store.outbox_rows
    } by {
        let rows = store.member_rows@;
        let p = member_row_pos(rows, m.group_id@, m.user_id@);
        lemma_member_row_pos(rows, m.group_id@, m.user_id@);
        if r is Ok {
            let k: int = if p < rows.len() {
                p
            } else {
                rows.len() as int
            };
            assert(final(store).member_rows@[k].role == m.role);
        }
    }
}

/// A cache is made of rows only where no id is there twice and every member has its group; its
/// tables are then the rows, nothing is announced, and a new command reply gets an id of its own.
pub proof fn law_from_rows(
    groups: Vec<GroupEntity>,
    messages: Vec<MessageEntity>,
    members: Vec<MemberEntity>,
    outbox: Vec<OutboxEntity>,
    replies: Vec<LocalCommandReplyEntity>,
    recorded: i64,
    r: Result<LocalStore, AppError>,
    i: int,
    j: int,
)
    requires
        call_ensures(
            LocalStore::from_rows,
            (groups, messages, members, outbox, replies, recorded),
            r,
        ),
    ensures
        r matches Ok(s) ==> {
            &&& s.group_rows == groups && s.message_rows == messages && s.member_rows == members
            &&& s.outbox_rows == outbox && s.reply_rows == replies && s.changes@.len() == 0
            &&& s.next_reply_id > recorded
        },
        0 <= i < j < groups@.len() && groups@[i].id@ == groups@[j].id@ ==> r is Err,
        0 <= i < j < messages@.len() && messages@[i].id@ == messages@[j].id@ ==> r is Err,
        0 <= i < j < outbox@.len() && outbox@[i].client_message_id@ == outbox@[j].client_message_id@
            ==> r is Err,
        0 <= i < j < members@.len() && members@[i].group_id@ == members@[j].group_id@
            && members@[i].user_id@ == members@[j].user_id@ ==> r is Err,
        0 <= i < members@.len() && (forall|k: int|
            0 <= k < groups@.len() ==> (#[trigger] groups@[k]).id@ != members@[i].group_id@)
            ==> r is Err,
        groups@.len() == 0 && messages@.len() == 0 && members@.len() == 0 && outbox@.len() == 0
            && replies@.len() == 0 && 0 <= recorded < i64::MAX ==> r is Ok,
{
}

/// The changes are handed out once.
pub proof fn law_take_changes(r: Vec<StoreChange>)
    ensures
        forall|store: &mut LocalStore| #[trigger]
            call_ensures(LocalStore::take_changes, (store,), r) ==> r@ == store.changes@ && final(store).changes@.len() == 0 && final(store).group_rows == store.group_rows && final(store).message_rows == store.message_rows && final(store).outbox_rows == store.outbox_rows
                && final(store).member_rows == store.member_rows,
{
}

/// Confirmed rows are not awaited; every other row of the group is.
pub proof fn law_unconfirmed_ids(store: &LocalStore, group: &str, r: Vec<String>, i: int)
    requires
        store.wf(),
        call_ensures(LocalStore::unconfirmed_ids, (store, group), r),
        0 <= i < store.outbox_rows@.len(),
    ensures
        texts(r@).contains(store.outbox_rows@[i].client_message_id@) <==> (
        store.outbox_rows@[i].group_id@ == group@ && store.outbox_rows@[i].state
            != OutboxState::Confirmed),
{
    broadcast use {
        Seq::lemma_filter_contains,
        Seq::lemma_filter_contains_rev,
        Seq::lemma_filter_pred,
    };
    let rows = store.outbox_rows@;
    let u = crate::store::outbox::unconfirmed_rows(rows, group@);
    let id = rows[i].client_message_id@;
    if rows[i].group_id@ == group@ && rows[i].state != OutboxState::Confirmed {
        assert(u.contains(rows[i]));
        let k = choose|k: int| 0 <= k < u.len() && u[k] == rows[i];
        assert(texts(r@)[k] == id);
    }
    if texts(r@).contains(id) {
        let k = choose|k: int| 0 <= k < texts(r@).len() && texts(r@)[k] == id;
        assert(u.contains(u[k]));
        assert(rows.contains(u[k]));
        let q = choose|q: int| 0 <= q < rows.len() && rows[q] == u[k];
        assert(rows[q].client_message_id@ == rows[i].client_message_id@);
        assert(q == i);
    }
}

/// A row that is picked is one that is due, and none that is due is older.
pub proof fn law_next_dispatchable(
    store: &LocalStore,
    now: i64,
    stale: i64,
    r: Option<OutboxEntity>,
    i: int,
)
    requires
        call_ensures(LocalStore::next_dispatchable, (store, now, stale), r),
        0 <= i < store.outbox_rows@.len(),
    ensures
        r matches Some(e) ==> store.outbox_rows@.contains(e) && e.state != OutboxState::Confirmed,
        r matches Some(e) ==> (e.state == OutboxState::Pending ==> (e.next_attempt_at matches Some(t)
            ==> t <= now)),
        r matches Some(e) ==> (e.state == OutboxState::InFlight ==> (e.last_attempt_at matches Some(
            t,
        ) ==> t <= stale)),
        ({
            let e = store.outbox_rows@[i];
            e.state == OutboxState::Pending && (e.next_attempt_at matches Some(t) && t <= now)
        }) && r is Some ==> r->0.created_at <= store.outbox_rows@[i].created_at,
        ({
            let e = store.outbox_rows@[i];
            e.state == OutboxState::Pending && e.next_attempt_at is None && e.error_code is None
        }) && r is Some ==> r->0.created_at <= store.outbox_rows@[i].created_at,
        ({
            let e = store.outbox_rows@[i];
            e.state == OutboxState::InFlight && (e.last_attempt_at matches Some(t) ==> t <= stale)
        }) && r is Some ==> r->0.created_at <= store.outbox_rows@[i].created_at,
{
    if r is Some {
        assert(dispatchable(store.outbox_rows@[i], now, stale) ==> r->0.created_at
            <= store.outbox_rows@[i].created_at);
    }
}

/// A value that is missing is replaced.
pub proof fn law_value_or(v: Option<i64>, d: i64, r: i64)
    requires
        call_ensures(value_or, (v, d), r),
    ensures
        v is Some ==> r == v->0,
        v is None ==> r == d,
{
}

/// A queued message is pending and untouched.
pub proof fn law_queued_message(id: String, group: &str, body: &str, now: i64, r: OutboxEntity)
    requires
        call_ensures(OutboxEntity::with_id, (id, group, body, now), r),
    ensures
        r.client_message_id == id,
        r.group_id@ == group@ && r.body@ == body@ && r.created_at == now,
        r.state == OutboxState::Pending && r.error_code is None && r.attempt_count == 0,
        r.next_attempt_at is None && r.last_attempt_at is None,
        r.confirmed_message_id is None && r.confirmed_seq is None,
{
}

/// A database gets the tables that it lacks; one that is newer than this library is refused.
pub proof fn law_migration(version: i32, known: bool, r: Result<Vec<MigrationStep>, AppError>)
    requires
        call_ensures(migration, (version, known), r),
    ensures
        r is Err <==> version > 2,
        version == 0 ==> r->Ok_0@.contains(MigrationStep::CreateTables) && r->Ok_0@[0]
            == MigrationStep::CreateTables,
        version == 0 && !known ==> r->Ok_0@.len() == 2 && r->Ok_0@[1]
            == MigrationStep::AddReadPosition,
        version == 0 && known ==> r->Ok_0@.len() == 1,
        version == 1 ==> r->Ok_0@ == seq![MigrationStep::AddReadPosition],
        version == 2 || version < 0 ==> r is Ok && r->Ok_0@.len() == 0,
{
    if version == 0 {
        assert(r->Ok_0@[0] == MigrationStep::CreateTables);
    }
}

/// The observed groups are listed, each once.
pub proof fn law_observed_list(
    o: &MemberObservationRegistry,
    r: Vec<String>,
    id: &str,
    observed: bool,
)
    requires
        o.wf(),
        call_ensures(MemberObservationRegistry::observed_group_ids, (o,), r),
        call_ensures(MemberObservationRegistry::is_observed, (o, id), observed),
    ensures
        texts(r@).contains(id@) <==> observed,
        forall|i: int, j: int|
            0 <= i < r@.len() && 0 <= j < r@.len() && (#[trigger] r@[i])@ == (#[trigger] r@[j])@
                ==> i == j,
{
    assert forall|i: int, j: int|
        0 <= i < r@.len() && 0 <= j < r@.len() && (#[trigger] r@[i])@ == (#[trigger] r@[j])@ implies i
        == j by {
        assert(texts(r@)[i] == texts(r@)[j]);
    }
}

/// Each message of a batch becomes the row at its place, in the group of the batch.
pub proof fn law_batch_of(ms: &Vec<MessageDto>, group: &str, now: i64, r: Vec<MessageEntity>, i: int)
    requires
        call_ensures(batch_of, (ms, group, now), r),
    ensures
        r@.len() == ms@.len(),
        0 <= i < ms@.len() ==> r@[i].id@ == ms@[i].id@ && r@[i].seq == ms@[i].seq,
{
}

/// Only the close code for too many connections is read as such.
pub proof fn law_too_many_connections(d: &DisconnectReason, r: bool)
    requires
        call_ensures(DisconnectReason::is_too_many_connections, (d,), r),
    ensures
        r <==> (*d matches DisconnectReason::Closed { code, .. } && code == Some(4029u16)),
{
}

/// Only the connected state is connected.
pub proof fn law_is_connected(s: SyncState, r: bool)
    requires
        call_ensures(SyncState::is_connected, (s,), r),
    ensures
        r <==> s is Connected,
{
}

/// The pages of a list and of a history are asked for by their borders.
pub proof fn law_queries(
    p: ListParams,
    cursor: String,
    q: ListParams,
    after: Option<i64>,
    a: MessagesQuery,
    before: Option<i64>,
    limit: u32,
    b: MessagesQuery,
)
    requires
        call_ensures(ListParams::with_cursor, (p, cursor), q),
        call_ensures(history_query, (after,), a),
        call_ensures(older_query, (before, limit), b),
    ensures
        q.cursor == Some(cursor) && q.limit == p.limit,
        a.after_seq == after && a.before_seq is None && a.limit == Some(100u32),
        b.before_seq == before && b.after_seq is None && b.limit == Some(limit),
{
}

/// A page of pending messages holds as many as its groups hold together.
pub proof fn law_message_count(p: &PendingResponse, q: &PendingResponse, g: GroupMessages, m: usize, n: usize)
    requires
        call_ensures(PendingResponse::message_count, (p,), m),
        call_ensures(PendingResponse::message_count, (q,), n),
    ensures
        p.messages@.len() == 0 ==> m == 0,
        q.messages@ == p.messages@.push(g) ==> n == m + g.messages@.len(),
{
    if q.messages@ == p.messages@.push(g) {
        assert(q.messages@.drop_last() =~= p.messages@);
    }
}

/// A plan is empty where nothing is stored and nothing is confirmed.
pub proof fn law_empty_plan(p: &ReconcilePlan, r: bool)
    requires
        call_ensures(ReconcilePlan::is_empty, (p,), r),
    ensures
        r <==> p.to_insert@.len() == 0 && p.echo_confirmations@.len() == 0,
{
}

/// A text is found in a list where it stands in it.
pub proof fn law_has_text(list: &Vec<String>, s: &String, r: bool, i: int)
    requires
        call_ensures(has_text, (list, s), r),
    ensures
        0 <= i < list@.len() && list@[i]@ == s@ ==> r,
        (forall|k: int| 0 <= k < list@.len() ==> (#[trigger] list@[k])@ != s@) ==> !r,
{
    if 0 <= i < list@.len() {
        assert(texts(list@)[i] == list@[i]@);
    }
    if r {
        let k = choose|k: int| 0 <= k < texts(list@).len() && texts(list@)[k] == s@;
        assert(list@[k]@ == s@);
    }
}

/// A group that is gone is marked deleted and reported, and the other groups stay as they are.
pub proof fn law_drop_group(group: &str, e: SyncEvent, i: int)
    ensures
        forall|store: &mut LocalStore|
            store.wf() && #[trigger] call_ensures(drop_group, (store, group), e) ==> {
                &&& e matches SyncEvent::GroupDeleted { group_id } && group_id@ == group@
                &&& final(store).group_rows@.len() == store.group_rows@.len()
                &&& 0 <= i < store.group_rows@.len() ==> (if store.group_rows@[i].id@ == group@ {
                    final(store).group_rows@[i] == (GroupEntity {
                        is_deleted: true,
                        ..store.group_rows@[i]
                    })
                } else {
                    final(store).group_rows@[i] == store.group_rows@[i]
                })
                &&& final(store).message_rows == store.message_rows
                &&& final(store).outbox_rows == store.outbox_rows
            },
{
    assert forall|store: &mut LocalStore|
        store.wf() && #[trigger] call_ensures(drop_group, (store, group), e) implies {
        &&& e matches SyncEvent::GroupDeleted { group_id } && group_id@ == group@
        &&& final(store).group_rows@.len() == store.group_rows@.len()
        &&& 0 <= i < store.group_rows@.len() ==> (if store.group_rows@[i].id@ == group@ {
            final(store).group_rows@[i] == (GroupEntity {
                is_deleted: true,
                ..store.group_rows@[i]
            })
        } else {
            final(store).group_rows@[i] == store.group_rows@[i]
        })
        &&& final(store).message_rows == store.message_rows
        &&& final(store).outbox_rows == store.outbox_rows
    } by {
        lemma_group_pos(store.group_rows@, group@);
    }
}

/// Fetched members become the group's members, one row each, and are counted; a group that the
/// server does not know is marked deleted; any other failure changes nothing.
pub proof fn law_refresh_members(
    group: &str,
    reply: Result<Vec<MemberDto>, AppError>,
    now: i64,
    r: Refreshed<Vec<MemberEntity>>,
    i: int,
)
    ensures
        forall|store: &mut LocalStore|
            store.wf() && #[trigger] call_ensures(refresh_members, (store, group, reply, now), r)
                ==> members_fetched(*store, *final(store), group@, reply, r, i),
{
    assert forall|store: &mut LocalStore|
        store.wf() && #[trigger] call_ensures(
            refresh_members,
            (store, group, reply, now),
            r,
        ) implies members_fetched(*store, *final(store), group@, reply, r, i) by {
        lemma_group_pos(store.group_rows@, group@);
        if 0 <= i < store.group_rows@.len() {
            lemma_only_group(*store, group@, i);
            assert(store.group_rows@[i].id@ == group@ ==> group_known(store.group_rows@, group@));
        }
    }
}

/// What the fetch of a group's members leaves in the group's row at `i`, and what it gives for the
/// member at `i`.
pub open spec fn members_fetched(
    s: LocalStore,
    t: LocalStore,
    group: Seq<char>,
    reply: Result<Vec<MemberDto>, AppError>,
    r: Refreshed<Vec<MemberEntity>>,
    i: int,
) -> bool {
    &&& t.message_rows == s.message_rows && t.outbox_rows == s.outbox_rows
    &&& 0 <= i < s.group_rows@.len() && s.group_rows@[i].id@ != group ==> t.group_rows@[i]
        == s.group_rows@[i]
    &&& reply matches Ok(ms) ==> {
        &&& 0 <= i < s.group_rows@.len() && s.group_rows@[i].id@ == group && ms@.len() <= i64::MAX
            ==> r is Found && t.group_rows@[i].member_count == ms@.len() && t.group_rows@[i] == (
        GroupEntity { member_count: t.group_rows@[i].member_count, ..s.group_rows@[i] })
        &&& r matches Refreshed::Found(rows) ==> {
            &&& rows@.len() == ms@.len()
            &&& 0 <= i < ms@.len() ==> rows@[i].group_id@ == group && rows@[i].user_id
                == ms@[i].user_id && rows@[i].role == ms@[i].role && rows@[i].display_name
                == ms@[i].display_name && rows@[i].phone_e164 == ms@[i].phone_e164
        }
    }
    &&& reply matches Err(e) ==> {
        &&& e is NotFound ==> r is Gone && t.member_rows == s.member_rows
        &&& e is NotFound && 0 <= i < s.group_rows@.len() && s.group_rows@[i].id@ == group
            ==> t.group_rows@[i] == (GroupEntity { is_deleted: true, ..s.group_rows@[i] })
        &&& !(e is NotFound) ==> t == s && r == Refreshed::<Vec<MemberEntity>>::Failed(e)
    }
}

} // verus!
